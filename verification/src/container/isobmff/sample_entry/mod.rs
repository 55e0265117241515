pub mod audio_sample_entry;
pub mod avc_sample_entry;
pub mod mp4a_sample_entry;
pub mod sample_entry;
pub mod visual_sample_entry;
