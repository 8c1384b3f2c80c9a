//! Latency monitoring for a remote ledger: payload generation, admission
//! control, the submission-and-confirmation pipeline, and the statistics
//! computed over its results.

pub mod admission;
pub mod config;
pub mod encoding;
pub mod keyring;
pub mod metrics;
pub mod output;
pub mod pipeline;
pub mod prometheus;
pub mod text;
pub mod tx;
pub mod xtask;
