//! Resolution of a ranked list of domains into a parent-linked log of DNS
//! answer records.

pub mod dns;
pub mod model;
pub mod progress;

pub use progress::{end_processing_marker, start_processing_marker, unix_time};
