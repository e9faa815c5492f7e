//! Structured outcomes of the fallible supervisor operations.
//!
//! The launcher fails on a precondition (`PortInUse`, `ExecutableNotFound`)
//! or on an operating-system spawn failure (`SpawnFailed`); the readiness
//! prober fails only by exhausting its caller-supplied timeout. All are
//! recoverable by the caller. Termination has no error channel at all.

use vstd::prelude::*;

verus! {

/// Why a start attempt was refused or failed.
#[derive(Debug)]
pub enum StartError {
    /// The fixed port was still bound after the backoff probe.
    PortInUse,
    /// The resolved executable path does not exist on disk.
    ExecutableNotFound,
    /// The operating system refused the spawn; carries its reason text.
    SpawnFailed(String),
}

/// Why a readiness wait gave up.
#[derive(Debug, PartialEq, Eq, Structural)]
pub enum ReadyError {
    /// No health poll succeeded within the caller-supplied timeout.
    StartupTimeout,
}

impl StartError {
    /// User-facing text for this error, rendered by the shell.
    pub fn message(&self) -> (s: String)
        ensures
            self is PortInUse ==> s@ == "port 2008 is already in use"@,
            self is ExecutableNotFound ==> s@ == "sidecar executable not found"@,
            self matches StartError::SpawnFailed(reason) ==> s@ == reason@,
    {
        match self {
            StartError::PortInUse => "port 2008 is already in use".to_owned(),
            StartError::ExecutableNotFound => "sidecar executable not found".to_owned(),
            StartError::SpawnFailed(reason) => reason.clone(),
        }
    }
}

impl ReadyError {
    /// User-facing text for this error, rendered by the shell.
    pub fn message(&self) -> (s: String)
        ensures
            s@ == "sidecar startup timeout"@,
    {
        "sidecar startup timeout".to_owned()
    }
}

} // verus!
