//! Multi-target reachability probing: the rules of the probing engine.
//!
//! The crate holds the decisions of a probe run as verified functions on plain
//! values: how one attempt becomes a [`pinger::PingResult`], how results
//! accumulate per target in a [`stats::StatsCollector`], when a per-target
//! loop goes on or stops, and what text every result and the final report
//! consist of. Sockets, timers and signal handling are the caller's business.

pub mod cli;
pub mod clock;
pub mod output;
pub mod pinger;
pub mod scheduler;
pub mod stats;
pub mod text;
