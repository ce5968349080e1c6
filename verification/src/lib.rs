//! A load-benchmark core: time-budgeted probe loops, per-worker outcome
//! counting, aggregation of worker results, and derived statistics.
//!
//! The library holds only the decision and computation logic. Spawning
//! workers, sending HTTP probes, and printing the report are left to the
//! surrounding program, which feeds plain values in and out.

pub mod aggregate;
pub mod config;
pub mod outcome;
pub mod report;
pub mod worker;
