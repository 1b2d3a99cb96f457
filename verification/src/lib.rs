//! Batch ingestion engine for structured log records ("hog" entries).
//!
//! The library holds the verified logic of the ingestion pipeline: the
//! batch accumulator with its position-correlated delivery/record pair,
//! the flush triggers, the persistence retry policy with linear backoff,
//! the acknowledgment resolution, request validation, and the search
//! filter construction. Broker and store I/O live outside the library
//! and drive these state machines with plain values.

pub mod batch;
pub mod config;
pub mod errors;
pub mod models;
pub mod services;
pub mod utils;
pub mod validator;
pub mod worker;

use vstd::prelude::*;

verus! {

/// Number of buffered records at which a batch is flushed in bulk mode.
pub const BULK_SIZE: usize = 1000;

/// Seconds between two ticks of the periodic flush clock.
pub const TIMING_THRESHOLD_SECS: u64 = 1;

/// Upper bound on persistence attempts for one batch.
pub const MAX_RETRIES: u64 = 5;

/// Milliseconds of backoff per attempt number (linear backoff base).
pub const BASE_DELAY_MS: u64 = 500;

} // verus!
