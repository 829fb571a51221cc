//! Bounded-concurrency fetch orchestration for daily precipitation ingest.
//!
//! The library splits a (station set, date range) workload into per-year
//! fetch tasks, bounds how many may run at once through a counting gate,
//! and aggregates the outcomes into an all-or-nothing result. The actual
//! HTTP calls, environment loading and file writing live outside the
//! library; they hand plain values in and take plain values back.

pub mod aggregate;
pub mod chunks;
pub mod config;
pub mod csvfmt;
pub mod dates;
pub mod errors;
pub mod executor;
pub mod frost;
pub mod outcome;
pub mod planner;
pub mod rows;
pub mod semaphore;
pub mod sql;
pub mod stations;
pub mod text;
