pub mod h264;
