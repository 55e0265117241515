pub mod aac_extractor;
pub mod avc_extractor;
