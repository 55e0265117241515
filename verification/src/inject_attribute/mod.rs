pub mod container;
pub mod metadata;
