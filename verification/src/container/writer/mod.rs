pub mod mp4_writer;
