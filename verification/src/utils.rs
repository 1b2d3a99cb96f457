//! Timestamp and identifier helpers, and the record conversions.

pub mod utils;
