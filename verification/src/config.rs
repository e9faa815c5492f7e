//! Fixed endpoint descriptors of the single supported sidecar topology.
//!
//! The TCP port and the health-check URL are process-wide constants, not
//! per-instance configuration: exactly one sidecar topology is supported.

use vstd::prelude::*;

verus! {

/// The loopback TCP port the sidecar serves on; probed before a start and
/// named in the health-check URL.
pub const SIDECAR_PORT: u16 = 2008;

/// Pause between two readiness polls, in milliseconds.
pub const POLL_INTERVAL_MS: u64 = 200;

/// Per-attempt timeout of one health request, in milliseconds.
pub const ATTEMPT_TIMEOUT_MS: u64 = 2000;

/// Backoff before the second port probe when the first found the port busy,
/// in milliseconds.
pub const PORT_BACKOFF_MS: u64 = 1000;

/// Settle time after the cleanup sweep has signalled its victims, in
/// milliseconds, so the operating system can reflect the exits before any
/// later port probe.
pub const SWEEP_SETTLE_MS: u64 = 500;

/// URL of the sidecar's health endpoint.
pub fn health_check_url() -> (s: &'static str)
    ensures
        s@ == "http://localhost:2008/api/health"@,
{
    "http://localhost:2008/api/health"
}

/// File name of the sidecar executable.
pub fn sidecar_exe_name() -> (s: &'static str)
    ensures
        s@ == "flask-backend.exe"@,
{
    "flask-backend.exe"
}

} // verus!
