//! Rows of the domain and record tables.

pub mod domain;
pub mod record;
