//! Plain status values the supervisor's host renders or persists.
//!
//! The shell queries these over its command boundary; the observations they
//! are assembled from (the liveness check, the health request) come in as
//! plain values.

use crate::config::SIDECAR_PORT;
use vstd::prelude::*;

verus! {

/// What the shell shows about the hosting application.
#[derive(Debug)]
pub struct AppInfo {
    /// The application's version text.
    pub version: String,
    /// The application's name.
    pub name: String,
    /// Whether the supervised sidecar process is running.
    pub flask_running: bool,
}

impl AppInfo {
    /// Assembles the application information from the given identity and the
    /// observed liveness.
    pub fn assemble(version: String, name: String, flask_running: bool) -> (info: AppInfo)
        ensures
            info.version == version,
            info.name == name,
            info.flask_running == flask_running,
    {
        AppInfo { version, name, flask_running }
    }
}

/// The sidecar's observed condition: whether its process runs, and whether
/// its health endpoint answers. A process may be running and not yet
/// healthy; readiness is distinct from existence.
#[derive(Debug, PartialEq, Eq, Structural, Clone, Copy)]
pub struct FlaskStatus {
    /// The tracked process has not exited.
    pub running: bool,
    /// The health endpoint answered successfully.
    pub healthy: bool,
    /// The fixed port the sidecar serves on.
    pub port: u16,
}

impl FlaskStatus {
    /// Assembles a status report from the observed liveness and health; the
    /// port is the fixed one of the single supported topology.
    pub fn assemble(running: bool, healthy: bool) -> (status: FlaskStatus)
        ensures
            status.running == running,
            status.healthy == healthy,
            status.port == SIDECAR_PORT,
    {
        FlaskStatus { running, healthy, port: SIDECAR_PORT }
    }
}

/// Persisted window geometry of the hosting shell. The supervisor core
/// exposes no file format for it; the shell persists it at its own boundary.
#[derive(Debug, PartialEq, Eq, Structural, Clone, Copy)]
pub struct WindowState {
    /// Window width in physical pixels.
    pub width: u32,
    /// Window height in physical pixels.
    pub height: u32,
    /// Horizontal window position in physical pixels.
    pub x: i32,
    /// Vertical window position in physical pixels.
    pub y: i32,
    /// Whether the window was maximized.
    pub maximized: bool,
}

} // verus!
