//! Core of a concurrent HTTP load-generation tool.
//!
//! The library holds the verified logic: the ramp-phase schedule that spawns
//! and stops virtual users, the per-worker request cadence, the thread-safe
//! statistics aggregate with its bounded sample buffer and latency histogram,
//! and the remote-write path that turns metric snapshots into monotonically
//! timestamped, snappy-compressed protobuf payloads.

pub mod config;
pub mod fmt;
pub mod hist;
pub mod metrics;
pub mod outcome;
pub mod ramp;
pub mod remote;
pub mod sequencer;
pub mod snapshot;
pub mod proto;
pub mod stats;
pub mod wire;
pub mod worker;
