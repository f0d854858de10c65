//! The headers of the container format.

pub mod chunk_header;
pub mod compression_header;
pub mod encryption_header;
pub mod file_header;
pub mod main_header;
pub mod pbe_header;
pub mod segment_header;
