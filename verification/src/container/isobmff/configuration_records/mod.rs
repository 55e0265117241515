pub mod avcC;
