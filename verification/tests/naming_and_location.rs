use sidecar_supervisor::config::{
    health_check_url, sidecar_exe_name, ATTEMPT_TIMEOUT_MS, POLL_INTERVAL_MS, PORT_BACKOFF_MS,
    SIDECAR_PORT, SWEEP_SETTLE_MS,
};
use sidecar_supervisor::errors::{ReadyError, StartError};
use sidecar_supervisor::locator::{default_exe_path, dev_tree_paths, resolve};
use sidecar_supervisor::name_match::matches_sidecar_name;
use sidecar_supervisor::status::{AppInfo, FlaskStatus, WindowState};

#[test]
fn matches_hyphenated_name() {
    assert!(matches_sidecar_name(b"flask-backend.exe"));
    assert!(matches_sidecar_name(b"flask-backend"));
}

#[test]
fn matches_underscored_name() {
    assert!(matches_sidecar_name(b"flask_backend.exe"));
}

#[test]
fn matches_case_insensitively() {
    assert!(matches_sidecar_name(b"Flask-Backend.EXE"));
    assert!(matches_sidecar_name(b"FLASK_BACKEND"));
}

#[test]
fn matches_as_substring() {
    assert!(matches_sidecar_name(b"wrapper-flask-backend-v2"));
}

#[test]
fn rejects_unrelated_names() {
    assert!(!matches_sidecar_name(b"flask"));
    assert!(!matches_sidecar_name(b"backend"));
    assert!(!matches_sidecar_name(b"flaskbackend"));
    assert!(!matches_sidecar_name(b"explorer.exe"));
    assert!(!matches_sidecar_name(b""));
}

fn packaged_layout() -> Vec<String> {
    let mut candidates = vec![
        "/opt/app/resources/flask-backend.exe".to_string(),
        "/opt/app/flask-backend.exe".to_string(),
    ];
    candidates.extend(dev_tree_paths());
    candidates
}

#[test]
fn resolve_prefers_packaged_resources_over_dev_tree() {
    let candidates = packaged_layout();
    // The packaged copy and two development-tree copies all exist.
    let exists = vec![true, false, true, true, false];
    let fallback = default_exe_path();
    let resolved = resolve(&candidates, &exists, &fallback);
    assert_eq!(resolved, "/opt/app/resources/flask-backend.exe");
}

#[test]
fn resolve_falls_through_to_first_existing() {
    let candidates = packaged_layout();
    let exists = vec![false, false, false, true, true];
    let fallback = default_exe_path();
    let resolved = resolve(&candidates, &exists, &fallback);
    assert_eq!(resolved, "dist/flask-backend.exe");
}

#[test]
fn resolve_defaults_when_nothing_exists() {
    let candidates = packaged_layout();
    let exists = vec![false; 5];
    let fallback = default_exe_path();
    let resolved = resolve(&candidates, &exists, &fallback);
    assert_eq!(resolved, "resources/flask-backend.exe");
}

#[test]
fn dev_tree_paths_are_the_declared_list() {
    let paths = dev_tree_paths();
    assert_eq!(
        paths,
        vec![
            "src-tauri/resources/flask-backend.exe".to_string(),
            "dist/flask-backend.exe".to_string(),
            "../dist/flask-backend.exe".to_string(),
        ]
    );
}

#[test]
fn fixed_endpoint_descriptors() {
    assert_eq!(SIDECAR_PORT, 2008);
    assert_eq!(health_check_url(), "http://localhost:2008/api/health");
    assert_eq!(sidecar_exe_name(), "flask-backend.exe");
    assert_eq!(POLL_INTERVAL_MS, 200);
    assert_eq!(ATTEMPT_TIMEOUT_MS, 2000);
    assert_eq!(PORT_BACKOFF_MS, 1000);
    assert_eq!(SWEEP_SETTLE_MS, 500);
}

#[test]
fn error_messages_name_their_cause() {
    assert_eq!(StartError::PortInUse.message(), "port 2008 is already in use");
    assert_eq!(StartError::ExecutableNotFound.message(), "sidecar executable not found");
    assert_eq!(StartError::SpawnFailed("interrupted".to_string()).message(), "interrupted");
    assert_eq!(ReadyError::StartupTimeout.message(), "sidecar startup timeout");
}

#[test]
fn status_values_carry_their_observations() {
    let info = AppInfo::assemble("1.2.3".to_string(), "shell".to_string(), true);
    assert_eq!(info.version, "1.2.3");
    assert_eq!(info.name, "shell");
    assert!(info.flask_running);

    let status = FlaskStatus::assemble(true, false);
    assert!(status.running);
    assert!(!status.healthy);
    assert_eq!(status.port, 2008);

    let window = WindowState { width: 1280, height: 720, x: 40, y: 60, maximized: false };
    assert_eq!(window.width, 1280);
    assert_eq!(window.height, 720);
    assert_eq!(window.x, 40);
    assert_eq!(window.y, 60);
    assert!(!window.maximized);
}
