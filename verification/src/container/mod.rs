pub mod isobmff;
pub mod remux;
pub mod transport_stream;
pub mod writer;
