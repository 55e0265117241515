pub mod adts;
pub mod elementary_stream_type;
pub mod pes_packet;
pub mod program_map_table;
pub mod program_association_table;
pub mod ts_packet;
