//! Supervisor for a single long-running local sidecar process.
//!
//! The sidecar is a network-serving backend bound to a fixed loopback port.
//! This crate holds the supervisor's decision logic, verified: locating the
//! executable across deployment layouts, the start sequence with its port and
//! executable preconditions, readiness polling against a health endpoint,
//! liveness interpretation, and the teardown sweep that selects stray
//! same-named processes. The operating-system work itself (spawning, TCP
//! probes, HTTP requests, process enumeration and signalling) is performed by
//! an unverified driver that feeds observations in as plain values and carries
//! the decided actions out.

pub mod config;
pub mod errors;
pub mod launch;
pub mod locator;
pub mod name_match;
pub mod prober;
pub mod status;
pub mod supervisor;
