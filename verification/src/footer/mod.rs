//! The footers of the container format.

pub mod segment_footer;
