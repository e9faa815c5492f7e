use sidecar_supervisor::errors::StartError;
use sidecar_supervisor::launch::{next_action, start_begin, start_step, StartAction, StartEvent, StartPhase};
use sidecar_supervisor::supervisor::{
    select_sweep_victims, termination_steps, ChildStatus, KillStep, ProcessRecord, Supervisor,
};

fn drive(events: Vec<StartEvent>) -> (StartPhase, Vec<StartAction>) {
    let mut phase = start_begin();
    let mut actions = Vec::new();
    for event in events {
        actions.push(next_action(&phase));
        phase = start_step(phase, event);
    }
    actions.push(next_action(&phase));
    (phase, actions)
}

#[test]
fn start_happy_path_launches() {
    let (phase, actions) = drive(vec![
        StartEvent::SweepDone,
        StartEvent::PortStatus(false),
        StartEvent::ExeStatus(true),
        StartEvent::Spawned(Ok(4242)),
    ]);
    assert!(matches!(phase, StartPhase::Launched(4242)));
    assert_eq!(
        actions,
        vec![
            StartAction::Sweep,
            StartAction::ProbePort,
            StartAction::CheckExe,
            StartAction::Spawn,
            StartAction::Finish,
        ]
    );
}

#[test]
fn start_port_busy_then_free_launches() {
    let (phase, actions) = drive(vec![
        StartEvent::SweepDone,
        StartEvent::PortStatus(true),
        StartEvent::PortStatus(false),
        StartEvent::ExeStatus(true),
        StartEvent::Spawned(Ok(7)),
    ]);
    assert!(matches!(phase, StartPhase::Launched(7)));
    assert_eq!(actions[2], StartAction::BackoffThenProbe);
    assert!(!actions[..actions.len() - 2].contains(&StartAction::Spawn));
}

#[test]
fn start_port_busy_twice_fails_without_spawn() {
    let (phase, actions) = drive(vec![
        StartEvent::SweepDone,
        StartEvent::PortStatus(true),
        StartEvent::PortStatus(true),
    ]);
    assert!(matches!(phase, StartPhase::Failed(StartError::PortInUse)));
    assert!(!actions.contains(&StartAction::Spawn));
}

#[test]
fn start_missing_exe_fails_without_spawn() {
    let (phase, actions) = drive(vec![
        StartEvent::SweepDone,
        StartEvent::PortStatus(false),
        StartEvent::ExeStatus(false),
    ]);
    assert!(matches!(phase, StartPhase::Failed(StartError::ExecutableNotFound)));
    assert!(!actions.contains(&StartAction::Spawn));
}

#[test]
fn start_spawn_failure_carries_reason() {
    let (phase, _) = drive(vec![
        StartEvent::SweepDone,
        StartEvent::PortStatus(false),
        StartEvent::ExeStatus(true),
        StartEvent::Spawned(Err("permission denied".to_string())),
    ]);
    match phase {
        StartPhase::Failed(StartError::SpawnFailed(reason)) => {
            assert_eq!(reason, "permission denied");
        }
        other => panic!("unexpected phase: {:?}", other),
    }
}

#[test]
fn failed_start_ignores_later_events() {
    let mut phase = start_begin();
    phase = start_step(phase, StartEvent::SweepDone);
    phase = start_step(phase, StartEvent::PortStatus(true));
    phase = start_step(phase, StartEvent::PortStatus(true));
    phase = start_step(phase, StartEvent::Spawned(Ok(9)));
    assert!(matches!(phase, StartPhase::Failed(StartError::PortInUse)));
}

#[test]
fn stop_clears_tracked_slot() {
    let mut sup = Supervisor::new("resources/flask-backend.exe".to_string());
    sup.track(321);
    let doomed = sup.stop();
    assert_eq!(doomed.map(|h| h.pid), Some(321));
    assert!(sup.slot.is_none());
    assert!(!sup.is_running(None));
}

#[test]
fn stop_with_nothing_tracked_is_noop() {
    let mut sup = Supervisor::new("resources/flask-backend.exe".to_string());
    let doomed = sup.stop();
    assert!(doomed.is_none());
    assert!(sup.slot.is_none());
    assert_eq!(sup.exe_path, "resources/flask-backend.exe");
    let doomed_again = sup.stop();
    assert!(doomed_again.is_none());
}

#[test]
fn restart_tracks_a_fresh_handle() {
    let mut sup = Supervisor::new("resources/flask-backend.exe".to_string());
    sup.track(100);
    let first = sup.slot;
    assert!(sup.is_running(Some(ChildStatus::Running)));
    sup.stop();
    assert!(!sup.is_running(None));
    sup.track(200);
    assert!(sup.is_running(Some(ChildStatus::Running)));
    assert_ne!(sup.slot, first);
}

#[test]
fn exited_child_reports_not_running_but_stays_tracked() {
    let mut sup = Supervisor::new("resources/flask-backend.exe".to_string());
    sup.track(55);
    assert!(!sup.is_running(Some(ChildStatus::Exited)));
    assert!(!sup.is_running(Some(ChildStatus::Unknown)));
    assert!(sup.slot.is_some());
}

fn record(pid: u32, name: &str) -> ProcessRecord {
    ProcessRecord { pid, name: name.as_bytes().to_vec() }
}

#[test]
fn sweep_selects_both_spellings_case_insensitively() {
    let procs = vec![
        record(1, "flask-backend.exe"),
        record(2, "FLASK_BACKEND"),
        record(3, "helper Flask-Backend worker"),
        record(4, "flask"),
        record(5, "backend"),
        record(6, "unrelated.exe"),
        record(7, "FlAsK_bAcKeNd.exe"),
    ];
    let victims = select_sweep_victims(&procs);
    assert_eq!(victims, vec![1, 2, 3, 7]);
}

#[test]
fn sweep_includes_untracked_instances() {
    let mut sup = Supervisor::new("resources/flask-backend.exe".to_string());
    sup.track(10);
    let procs = vec![record(10, "flask-backend.exe"), record(99, "flask-backend.exe")];
    let victims = select_sweep_victims(&procs);
    assert_eq!(victims, vec![10, 99]);
}

#[test]
fn sweep_of_no_processes_selects_nothing() {
    let victims = select_sweep_victims(&Vec::new());
    assert!(victims.is_empty());
}

#[test]
fn termination_steps_with_process_trees() {
    let steps = termination_steps(true);
    assert_eq!(steps, vec![KillStep::KillTree, KillStep::KillDirect, KillStep::AwaitExit]);
}

#[test]
fn termination_steps_without_process_trees() {
    let steps = termination_steps(false);
    assert_eq!(steps, vec![KillStep::KillDirect, KillStep::AwaitExit]);
}
