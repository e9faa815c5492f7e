//! The start sequence, as a state machine from observations to decisions.
//!
//! A start runs, in order: the cleanup sweep, a port probe (repeated once
//! after a backoff if the port was busy), the executable existence check, and
//! the spawn. The driver performs each step's operating-system work and hands
//! the observation back as an event; this module decides what follows. A
//! start that has failed stays failed, so a busy port or a missing executable
//! provably never leads to a spawn.

use crate::errors::StartError;
use vstd::prelude::*;

verus! {

/// Where a start attempt stands.
#[derive(Debug)]
pub enum StartPhase {
    /// The cleanup sweep for leftover instances is due.
    Sweeping,
    /// A port probe is due; `second` after the first found the port busy.
    ProbingPort { second: bool },
    /// The executable existence check is due.
    CheckingExe,
    /// The spawn itself is due.
    Spawning,
    /// The attempt is over, unsuccessfully.
    Failed(StartError),
    /// The attempt is over; the spawned process has this id.
    Launched(u32),
}

/// An observation the driver hands back after performing a step.
#[derive(Debug)]
pub enum StartEvent {
    /// The cleanup sweep ran to completion.
    SweepDone,
    /// A port probe finished; `true` means the port is in use.
    PortStatus(bool),
    /// The existence check finished; `true` means the executable exists.
    ExeStatus(bool),
    /// The spawn finished, with the new process id or the system's reason.
    Spawned(Result<u32, String>),
}

/// What the driver is to do next in a given phase.
#[derive(Debug, PartialEq, Eq, Structural, Clone, Copy)]
pub enum StartAction {
    /// Run the cleanup sweep.
    Sweep,
    /// Probe the fixed port at once.
    ProbePort,
    /// Wait the fixed backoff, then probe the fixed port again.
    BackoffThenProbe,
    /// Check that the resolved executable path exists.
    CheckExe,
    /// Spawn the executable with captured output streams.
    Spawn,
    /// Nothing; the attempt is over.
    Finish,
}

/// The transition of one start step. An event that does not fit the phase
/// changes nothing.
pub open spec fn step_spec(phase: StartPhase, event: StartEvent) -> StartPhase {
    match (phase, event) {
        (StartPhase::Sweeping, StartEvent::SweepDone) => StartPhase::ProbingPort { second: false },
        (StartPhase::ProbingPort { second: false }, StartEvent::PortStatus(busy)) => if busy {
            StartPhase::ProbingPort { second: true }
        } else {
            StartPhase::CheckingExe
        },
        (StartPhase::ProbingPort { second: true }, StartEvent::PortStatus(busy)) => if busy {
            StartPhase::Failed(StartError::PortInUse)
        } else {
            StartPhase::CheckingExe
        },
        (StartPhase::CheckingExe, StartEvent::ExeStatus(found)) => if found {
            StartPhase::Spawning
        } else {
            StartPhase::Failed(StartError::ExecutableNotFound)
        },
        (StartPhase::Spawning, StartEvent::Spawned(outcome)) => match outcome {
            Ok(pid) => StartPhase::Launched(pid),
            Err(reason) => StartPhase::Failed(StartError::SpawnFailed(reason)),
        },
        (p, _) => p,
    }
}

/// The driver's next action in a phase.
pub open spec fn action_spec(phase: StartPhase) -> StartAction {
    match phase {
        StartPhase::Sweeping => StartAction::Sweep,
        StartPhase::ProbingPort { second: false } => StartAction::ProbePort,
        StartPhase::ProbingPort { second: true } => StartAction::BackoffThenProbe,
        StartPhase::CheckingExe => StartAction::CheckExe,
        StartPhase::Spawning => StartAction::Spawn,
        StartPhase::Failed(_) => StartAction::Finish,
        StartPhase::Launched(_) => StartAction::Finish,
    }
}

/// A fresh start attempt, before any step.
pub fn start_begin() -> (p: StartPhase)
    ensures
        p == StartPhase::Sweeping,
{
    StartPhase::Sweeping
}

/// One step of a start attempt.
pub fn start_step(phase: StartPhase, event: StartEvent) -> (next: StartPhase)
    ensures
        next == step_spec(phase, event),
{
    match (phase, event) {
        (StartPhase::Sweeping, StartEvent::SweepDone) => StartPhase::ProbingPort { second: false },
        (StartPhase::ProbingPort { second: false }, StartEvent::PortStatus(busy)) => if busy {
            StartPhase::ProbingPort { second: true }
        } else {
            StartPhase::CheckingExe
        },
        (StartPhase::ProbingPort { second: true }, StartEvent::PortStatus(busy)) => if busy {
            StartPhase::Failed(StartError::PortInUse)
        } else {
            StartPhase::CheckingExe
        },
        (StartPhase::CheckingExe, StartEvent::ExeStatus(found)) => if found {
            StartPhase::Spawning
        } else {
            StartPhase::Failed(StartError::ExecutableNotFound)
        },
        (StartPhase::Spawning, StartEvent::Spawned(outcome)) => match outcome {
            Ok(pid) => StartPhase::Launched(pid),
            Err(reason) => StartPhase::Failed(StartError::SpawnFailed(reason)),
        },
        (p, _) => p,
    }
}

/// The driver's next action in a phase.
pub fn next_action(phase: &StartPhase) -> (a: StartAction)
    ensures
        a == action_spec(*phase),
{
    match phase {
        StartPhase::Sweeping => StartAction::Sweep,
        StartPhase::ProbingPort { second } => if *second {
            StartAction::BackoffThenProbe
        } else {
            StartAction::ProbePort
        },
        StartPhase::CheckingExe => StartAction::CheckExe,
        StartPhase::Spawning => StartAction::Spawn,
        StartPhase::Failed(_) => StartAction::Finish,
        StartPhase::Launched(_) => StartAction::Finish,
    }
}

/// The phase reached from `phase` after the events in order.
pub open spec fn run_from(phase: StartPhase, events: Seq<StartEvent>) -> StartPhase
    decreases events.len(),
{
    if events.len() == 0 {
        phase
    } else {
        run_from(step_spec(phase, events[0]), events.skip(1))
    }
}

/// The phase reached from a fresh attempt after the events in order.
pub open spec fn run(events: Seq<StartEvent>) -> StartPhase {
    run_from(StartPhase::Sweeping, events)
}

/// The attempt is over.
pub open spec fn settled(phase: StartPhase) -> bool {
    phase is Failed || phase is Launched
}

/// The attempt has passed every precondition check: it is at, or beyond, the
/// spawn itself.
pub open spec fn committed(phase: StartPhase) -> bool {
    phase is Spawning || settled(phase)
}

/// Appending one event steps the reached phase once.
pub proof fn lemma_run_from_snoc(phase: StartPhase, events: Seq<StartEvent>, event: StartEvent)
    ensures
        run_from(phase, events.push(event)) == step_spec(run_from(phase, events), event),
    decreases events.len(),
{
    if events.len() == 0 {
        assert(events.push(event)[0] == event);
        assert(events.push(event).skip(1) =~= Seq::<StartEvent>::empty());
        assert(run_from(phase, events.push(event)) == run_from(
            step_spec(phase, event),
            events.push(event).skip(1),
        ));
        assert(run_from(step_spec(phase, event), Seq::<StartEvent>::empty()) == step_spec(
            phase,
            event,
        ));
    } else {
        assert(events.push(event)[0] == events[0]);
        assert(events.push(event).skip(1) =~= events.skip(1).push(event));
        lemma_run_from_snoc(step_spec(phase, events[0]), events.skip(1), event);
    }
}

/// Running a concatenation runs the parts in order.
pub proof fn lemma_run_from_split(phase: StartPhase, front: Seq<StartEvent>, back: Seq<StartEvent>)
    ensures
        run_from(phase, front + back) == run_from(run_from(phase, front), back),
    decreases front.len(),
{
    if front.len() == 0 {
        assert(front + back =~= back);
    } else {
        assert((front + back)[0] == front[0]);
        assert((front + back).skip(1) =~= front.skip(1) + back);
        lemma_run_from_split(step_spec(phase, front[0]), front.skip(1), back);
    }
}

/// A settled attempt stays exactly where it is.
pub proof fn lemma_settled_stays(phase: StartPhase, events: Seq<StartEvent>)
    requires
        settled(phase),
    ensures
        run_from(phase, events) == phase,
    decreases events.len(),
{
    if events.len() > 0 {
        assert(step_spec(phase, events[0]) == phase);
        lemma_settled_stays(phase, events.skip(1));
    }
}

/// An attempt that has passed every check never returns to a checking phase.
pub proof fn lemma_committed_stays(phase: StartPhase, events: Seq<StartEvent>)
    requires
        committed(phase),
    ensures
        committed(run_from(phase, events)),
    decreases events.len(),
{
    if events.len() > 0 {
        assert(committed(step_spec(phase, events[0])));
        lemma_committed_stays(step_spec(phase, events[0]), events.skip(1));
    }
}

/// The observations of a start that meets every precondition: the sweep ran,
/// the port was free (at once, or at the probe after the backoff), the
/// executable existed, and the spawn yielded this process id.
pub open spec fn favorable_events(first_busy: bool, pid: u32) -> Seq<StartEvent> {
    if first_busy {
        seq![
            StartEvent::SweepDone,
            StartEvent::PortStatus(true),
            StartEvent::PortStatus(false),
            StartEvent::ExeStatus(true),
            StartEvent::Spawned(Ok(pid)),
        ]
    } else {
        seq![
            StartEvent::SweepDone,
            StartEvent::PortStatus(false),
            StartEvent::ExeStatus(true),
            StartEvent::Spawned(Ok(pid)),
        ]
    }
}

/// Success is owed: a start whose observations are favorable ends launched,
/// with exactly the spawned process id tracked.
pub proof fn lemma_favorable_events_launch(first_busy: bool, pid: u32)
    ensures
        run(favorable_events(first_busy, pid)) == StartPhase::Launched(pid),
{
    let s0 = Seq::<StartEvent>::empty();
    if first_busy {
        let s1 = s0.push(StartEvent::SweepDone);
        let s2 = s1.push(StartEvent::PortStatus(true));
        let s3 = s2.push(StartEvent::PortStatus(false));
        let s4 = s3.push(StartEvent::ExeStatus(true));
        let s5 = s4.push(StartEvent::Spawned(Ok(pid)));
        lemma_run_from_snoc(StartPhase::Sweeping, s0, StartEvent::SweepDone);
        lemma_run_from_snoc(StartPhase::Sweeping, s1, StartEvent::PortStatus(true));
        lemma_run_from_snoc(StartPhase::Sweeping, s2, StartEvent::PortStatus(false));
        lemma_run_from_snoc(StartPhase::Sweeping, s3, StartEvent::ExeStatus(true));
        lemma_run_from_snoc(StartPhase::Sweeping, s4, StartEvent::Spawned(Ok(pid)));
        assert(favorable_events(first_busy, pid) =~= s5);
    } else {
        let s1 = s0.push(StartEvent::SweepDone);
        let s2 = s1.push(StartEvent::PortStatus(false));
        let s3 = s2.push(StartEvent::ExeStatus(true));
        let s4 = s3.push(StartEvent::Spawned(Ok(pid)));
        lemma_run_from_snoc(StartPhase::Sweeping, s0, StartEvent::SweepDone);
        lemma_run_from_snoc(StartPhase::Sweeping, s1, StartEvent::PortStatus(false));
        lemma_run_from_snoc(StartPhase::Sweeping, s2, StartEvent::ExeStatus(true));
        lemma_run_from_snoc(StartPhase::Sweeping, s3, StartEvent::Spawned(Ok(pid)));
        assert(favorable_events(first_busy, pid) =~= s4);
    }
}

/// A start against a port that is busy at both probes fails with `PortInUse`,
/// and no phase of the whole attempt ever reaches the spawn.
pub proof fn lemma_port_busy_twice_blocks_spawn(events: Seq<StartEvent>)
    requires
        events.len() >= 3,
        events[0] == StartEvent::SweepDone,
        events[1] == StartEvent::PortStatus(true),
        events[2] == StartEvent::PortStatus(true),
    ensures
        run(events) == StartPhase::Failed(StartError::PortInUse),
        forall|m: int|
            0 <= m <= events.len() ==> !(#[trigger] run(events.take(m)) is Spawning) && !(run(
                events.take(m),
            ) is Launched),
{
    assert(events.take(0) =~= Seq::<StartEvent>::empty());
    assert(events.take(1) =~= events.take(0).push(events[0]));
    lemma_run_from_snoc(StartPhase::Sweeping, events.take(0), events[0]);
    assert(run(events.take(1)) == StartPhase::ProbingPort { second: false });
    assert(events.take(2) =~= events.take(1).push(events[1]));
    lemma_run_from_snoc(StartPhase::Sweeping, events.take(1), events[1]);
    assert(run(events.take(2)) == StartPhase::ProbingPort { second: true });
    assert(events.take(3) =~= events.take(2).push(events[2]));
    lemma_run_from_snoc(StartPhase::Sweeping, events.take(2), events[2]);
    assert(run(events.take(3)) == StartPhase::Failed(StartError::PortInUse));
    assert forall|m: int| 3 <= m <= events.len() implies run(events.take(m)) == StartPhase::Failed(
        StartError::PortInUse,
    ) by {
        assert(events.take(m) =~= events.take(3) + events.subrange(3, m));
        lemma_run_from_split(StartPhase::Sweeping, events.take(3), events.subrange(3, m));
        lemma_settled_stays(StartPhase::Failed(StartError::PortInUse), events.subrange(3, m));
    }
    assert(events.take(events.len() as int) =~= events);
    assert(run(events) == StartPhase::Failed(StartError::PortInUse));
}

/// A start whose executable check finds nothing fails with
/// `ExecutableNotFound`, and no phase of the whole attempt ever reaches the
/// spawn.
pub proof fn lemma_missing_exe_blocks_spawn(events: Seq<StartEvent>, k: int)
    requires
        0 <= k < events.len(),
        run(events.take(k)) == StartPhase::CheckingExe,
        events[k] == StartEvent::ExeStatus(false),
    ensures
        run(events) == StartPhase::Failed(StartError::ExecutableNotFound),
        forall|m: int|
            0 <= m <= events.len() ==> !(#[trigger] run(events.take(m)) is Spawning) && !(run(
                events.take(m),
            ) is Launched),
{
    assert(events.take(k + 1) =~= events.take(k).push(events[k]));
    lemma_run_from_snoc(StartPhase::Sweeping, events.take(k), events[k]);
    assert(run(events.take(k + 1)) == StartPhase::Failed(StartError::ExecutableNotFound));
    assert forall|m: int| 0 <= m <= events.len() implies !(#[trigger] run(
        events.take(m),
    ) is Spawning) && !(run(events.take(m)) is Launched) by {
        if m <= k {
            if committed(run(events.take(m))) {
                assert(events.take(k) =~= events.take(m) + events.subrange(m, k));
                lemma_run_from_split(StartPhase::Sweeping, events.take(m), events.subrange(m, k));
                lemma_committed_stays(run(events.take(m)), events.subrange(m, k));
                assert(false);
            }
        } else {
            assert(events.take(m) =~= events.take(k + 1) + events.subrange(k + 1, m));
            lemma_run_from_split(StartPhase::Sweeping, events.take(k + 1), events.subrange(k + 1, m));
            lemma_settled_stays(
                StartPhase::Failed(StartError::ExecutableNotFound),
                events.subrange(k + 1, m),
            );
        }
    }
    let n = events.len() as int;
    assert(events.take(n) =~= events.take(k + 1) + events.subrange(k + 1, n));
    lemma_run_from_split(StartPhase::Sweeping, events.take(k + 1), events.subrange(k + 1, n));
    lemma_settled_stays(
        StartPhase::Failed(StartError::ExecutableNotFound),
        events.subrange(k + 1, n),
    );
    assert(events.take(n) =~= events);
}

} // verus!
