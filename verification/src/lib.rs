//! Transport stream to fragmented MP4 remuxing: parsers for MPEG-TS, ADTS,
//! H.264 and ISO BMFF structures, and builders for the ISO BMFF boxes of a
//! CMAF init and media segment.
#![allow(non_snake_case)]
#![allow(non_camel_case_types)]

pub mod error;
pub mod util;
pub mod codec;
pub mod container;
pub mod injector;
pub mod inject_attribute;
