use sidecar_supervisor::errors::ReadyError;
use sidecar_supervisor::prober::{
    interpret_health_response, run_probe_schedule, ProbeAction, ProbeOutcome, Prober,
};

#[test]
fn never_healthy_times_out_after_about_the_timeout() {
    let health = vec![false; 16];
    let report = run_probe_schedule(&health, 1000);
    assert_eq!(report.result, Err(ReadyError::StartupTimeout));
    // One check at 0, 200, ..., 1000 ms each; the give-up test first fails at 1200 ms.
    assert_eq!(report.checks, 6);
    assert_eq!(report.elapsed_ms, 1200);
}

#[test]
fn timeout_is_not_immediate() {
    let health: Vec<bool> = Vec::new();
    let report = run_probe_schedule(&health, 0);
    assert_eq!(report.result, Err(ReadyError::StartupTimeout));
    assert_eq!(report.checks, 1);
}

#[test]
fn success_on_second_poll_after_two_checks() {
    let health = vec![false, true];
    let report = run_probe_schedule(&health, 10_000);
    assert_eq!(report.result, Ok(()));
    assert_eq!(report.checks, 2);
    assert_eq!(report.elapsed_ms, 200);
}

#[test]
fn immediate_success_needs_one_check() {
    let health = vec![true];
    let report = run_probe_schedule(&health, 10_000);
    assert_eq!(report.result, Ok(()));
    assert_eq!(report.checks, 1);
    assert_eq!(report.elapsed_ms, 0);
}

#[test]
fn success_just_inside_the_window_is_found() {
    // The fifth check runs at 800 ms, still within a 800 ms timeout.
    let health = vec![false, false, false, false, true];
    let report = run_probe_schedule(&health, 800);
    assert_eq!(report.result, Ok(()));
    assert_eq!(report.checks, 5);
    assert_eq!(report.elapsed_ms, 800);
}

#[test]
fn success_just_outside_the_window_is_missed() {
    // The sixth check would run at 1000 ms, past a 900 ms timeout.
    let health = vec![false, false, false, false, false, true];
    let report = run_probe_schedule(&health, 900);
    assert_eq!(report.result, Err(ReadyError::StartupTimeout));
    assert_eq!(report.checks, 5);
}

#[test]
fn prober_gives_up_only_past_the_timeout() {
    let mut prober = Prober::new(400);
    assert_eq!(prober.next_action(), ProbeAction::Check);
    assert_eq!(prober.record_check(false), ProbeOutcome::Continue);
    assert_eq!(prober.next_action(), ProbeAction::Check);
    assert_eq!(prober.record_check(false), ProbeOutcome::Continue);
    assert_eq!(prober.next_action(), ProbeAction::Check);
    assert_eq!(prober.record_check(false), ProbeOutcome::Continue);
    assert_eq!(prober.next_action(), ProbeAction::GiveUp);
}

#[test]
fn prober_stops_at_first_success() {
    let mut prober = Prober::new(400);
    assert_eq!(prober.record_check(false), ProbeOutcome::Continue);
    assert_eq!(prober.record_check(true), ProbeOutcome::Ready);
    assert_eq!(prober.elapsed_ms, 200);
}

#[test]
fn health_interpretation_accepts_only_success_statuses() {
    assert!(interpret_health_response(Some(200)));
    assert!(interpret_health_response(Some(204)));
    assert!(interpret_health_response(Some(299)));
    assert!(!interpret_health_response(Some(199)));
    assert!(!interpret_health_response(Some(300)));
    assert!(!interpret_health_response(Some(404)));
    assert!(!interpret_health_response(Some(500)));
    assert!(!interpret_health_response(None));
}
