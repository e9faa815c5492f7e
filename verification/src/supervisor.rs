//! The supervisor's single tracked-process slot, liveness interpretation,
//! and the teardown decisions.
//!
//! The slot holds at most one handle: it becomes occupied only when a start
//! has spawned, and empty only in `stop`. The driver guards the slot with its
//! mutual-exclusion lock and performs the kills; this module decides which
//! processes die and in what order, and what a liveness query reports.

use crate::name_match;
use vstd::prelude::*;

verus! {

/// The supervisor's reference to the one spawned sidecar process.
#[derive(Debug, PartialEq, Eq, Structural, Clone, Copy)]
pub struct SidecarHandle {
    /// Operating-system id of the spawned process.
    pub pid: u32,
}

/// What a non-blocking exit-status check of the tracked child observed.
#[derive(Debug, PartialEq, Eq, Structural, Clone, Copy)]
pub enum ChildStatus {
    /// The process has not exited.
    Running,
    /// The process has already exited.
    Exited,
    /// The check itself failed.
    Unknown,
}

/// The supervisor: the resolved executable path, immutable after
/// construction, and the single tracked slot.
pub struct Supervisor {
    /// Executable path resolved once at creation; not re-resolved on restart.
    pub exe_path: String,
    /// The tracked slot: empty exactly when no process is tracked as running.
    pub slot: Option<SidecarHandle>,
}

/// What a liveness query reports: a process is tracked and its non-blocking
/// exit-status check saw it still running. An exited or unreadable child is
/// not running, but stays in the slot; clearing is `stop`'s alone.
pub open spec fn reports_running(slot: Option<SidecarHandle>, status: Option<ChildStatus>) -> bool {
    slot is Some && status == Some(ChildStatus::Running)
}

/// How `stop` relates the supervisor's state before and after, and which
/// handle it dooms: the slot is cleared regardless of the kill's outcome,
/// nothing else changes, and exactly the tracked handle (if any) is killed.
pub open spec fn stop_transition(
    before: Supervisor,
    after: Supervisor,
    doomed: Option<SidecarHandle>,
) -> bool {
    &&& after.slot is None
    &&& after.exe_path == before.exe_path
    &&& doomed == before.slot
}

impl Supervisor {
    /// A supervisor over the given resolved executable path, tracking
    /// nothing.
    pub fn new(exe_path: String) -> (s: Supervisor)
        ensures
            s.exe_path == exe_path,
            s.slot is None,
    {
        Supervisor { exe_path, slot: None }
    }

    /// Records a successful spawn, overwriting any stale prior value; a
    /// stale occupant is not an error, the sweep at the head of the start
    /// sequence already killed its process.
    pub fn track(&mut self, pid: u32)
        ensures
            final(self).exe_path == old(self).exe_path,
            final(self).slot == Some(SidecarHandle { pid }),
    {
        self.slot = Some(SidecarHandle { pid });
    }

    /// The teardown decision: clears the tracked slot unconditionally and
    /// returns the handle the driver is to kill and reap, if one was
    /// tracked. It has no error channel: shutdown always proceeds.
    pub fn stop(&mut self) -> (doomed: Option<SidecarHandle>)
        ensures
            stop_transition(*old(self), *final(self), doomed),
    {
        let doomed = self.slot;
        self.slot = None;
        doomed
    }

    /// The liveness query's decision, from the slot and the status the
    /// driver observed of the tracked child (none when nothing is tracked).
    pub fn is_running(&self, status: Option<ChildStatus>) -> (b: bool)
        requires
            status is Some <==> self.slot is Some,
        ensures
            b == reports_running(self.slot, status),
    {
        match status {
            Some(ChildStatus::Running) => matches!(self.slot, Some(_)),
            _ => false,
        }
    }
}

/// After a stop, from any prior state, the slot is empty and every liveness
/// query reports not running.
pub proof fn lemma_stop_reports_not_running(
    before: Supervisor,
    after: Supervisor,
    doomed: Option<SidecarHandle>,
)
    requires
        stop_transition(before, after, doomed),
    ensures
        after.slot is None,
        forall|status: Option<ChildStatus>| !reports_running(after.slot, status),
{
}

/// A stop when nothing is tracked is a no-op: it dooms no process and
/// leaves the supervisor exactly as it was.
pub proof fn lemma_stop_on_empty_is_noop(
    before: Supervisor,
    after: Supervisor,
    doomed: Option<SidecarHandle>,
)
    requires
        before.slot is None,
        stop_transition(before, after, doomed),
    ensures
        doomed is None,
        after.slot == before.slot,
        after.exe_path == before.exe_path,
{
}

/// One enumerated operating-system process, as the sweep sees it.
#[derive(Debug)]
pub struct ProcessRecord {
    /// Operating-system process id.
    pub pid: u32,
    /// Process name, as bytes.
    pub name: Vec<u8>,
}

/// The pids the sweep kills, in enumeration order: those of exactly the
/// processes whose name matches the sidecar's base name.
pub open spec fn victims_of(procs: Seq<ProcessRecord>) -> Seq<u32>
    decreases procs.len(),
{
    if procs.len() == 0 {
        Seq::empty()
    } else {
        let rest = victims_of(procs.drop_last());
        if name_match::name_matches(procs.last().name@) {
            rest.push(procs.last().pid)
        } else {
            rest
        }
    }
}

/// Selects the victims of one cleanup sweep from the enumerated processes:
/// every process whose name matches the sidecar's base name,
/// case-insensitively and under both spellings, tracked by this supervisor
/// or not.
pub fn select_sweep_victims(procs: &Vec<ProcessRecord>) -> (victims: Vec<u32>)
    ensures
        victims@ == victims_of(procs@),
{
    let mut victims: Vec<u32> = Vec::new();
    let mut i: usize = 0;
    while i < procs.len()
        invariant
            i <= procs@.len(),
            victims@ == victims_of(procs@.take(i as int)),
        decreases procs@.len() - i,
    {
        let entry = &procs[i];
        if name_match::matches_sidecar_name(entry.name.as_slice()) {
            victims.push(entry.pid);
        }
        i = i + 1;
        proof {
            assert(procs@.take(i as int).drop_last() =~= procs@.take(i - 1));
            assert(procs@.take(i as int).last() == procs@[i - 1]);
        }
    }
    proof {
        assert(procs@.take(procs@.len() as int) =~= procs@);
    }
    victims
}

/// Some enumerated process has this pid and a matching name.
pub open spec fn is_matching_pid(procs: Seq<ProcessRecord>, pid: u32) -> bool {
    exists|i: int|
        0 <= i < procs.len() && name_match::name_matches(#[trigger] procs[i].name@) && procs[i].pid
            == pid
}

/// The sweep's victims are exactly the matching processes: every enumerated
/// process whose name matches is killed, and every kill is of some
/// enumerated process whose name matches.
pub proof fn lemma_sweep_selects_exactly_matches(procs: Seq<ProcessRecord>)
    ensures
        forall|i: int|
            0 <= i < procs.len() && name_match::name_matches(#[trigger] procs[i].name@)
                ==> victims_of(procs).contains(procs[i].pid),
        forall|j: int|
            0 <= j < victims_of(procs).len() ==> is_matching_pid(
                procs,
                #[trigger] victims_of(procs)[j],
            ),
    decreases procs.len(),
{
    if procs.len() > 0 {
        let front = procs.drop_last();
        lemma_sweep_selects_exactly_matches(front);
        let rest = victims_of(front);
        assert forall|i: int|
            0 <= i < procs.len() && name_match::name_matches(
                #[trigger] procs[i].name@,
            ) implies victims_of(procs).contains(procs[i].pid) by {
            if i < procs.len() - 1 {
                assert(front[i] == procs[i]);
                assert(rest.contains(procs[i].pid));
                let k = choose|k: int| 0 <= k < rest.len() && rest[k] == procs[i].pid;
                assert(victims_of(procs)[k] == procs[i].pid);
            } else {
                assert(procs.last() == procs[i]);
                assert(victims_of(procs).last() == procs[i].pid);
            }
        }
        let matched = name_match::name_matches(procs.last().name@);
        assert(victims_of(procs) == if matched {
            rest.push(procs.last().pid)
        } else {
            rest
        });
        assert forall|j: int| 0 <= j < victims_of(procs).len() implies is_matching_pid(
            procs,
            #[trigger] victims_of(procs)[j],
        ) by {
            if j < rest.len() {
                assert(victims_of(procs)[j] == rest[j]);
                assert(is_matching_pid(front, rest[j]));
                let i = choose|i: int|
                    0 <= i < front.len() && name_match::name_matches(#[trigger] front[i].name@)
                        && front[i].pid == rest[j];
                assert(front[i] == procs[i]);
                assert(0 <= i < procs.len() && name_match::name_matches(procs[i].name@)
                    && procs[i].pid == victims_of(procs)[j]);
            } else {
                assert(matched);
                let i = procs.len() - 1;
                assert(victims_of(procs)[j] == procs[i].pid);
                assert(0 <= i < procs.len() && name_match::name_matches(procs[i].name@)
                    && procs[i].pid == victims_of(procs)[j]);
            }
        }
    } else {
        assert(victims_of(procs) == Seq::<u32>::empty());
    }
}

/// One step of terminating the tracked child.
#[derive(Debug, PartialEq, Eq, Structural, Clone, Copy)]
pub enum KillStep {
    /// Terminate the process together with all of its descendants.
    KillTree,
    /// Kill the process directly through its handle.
    KillDirect,
    /// Block until the process is reaped, so no zombie remains.
    AwaitExit,
}

/// The ordered kill steps for the tracked child: where the platform has a
/// notion of process trees, a tree-kill comes first as the more thorough
/// attempt; a direct kill and the reaping wait follow unconditionally.
pub fn termination_steps(tree_kill_supported: bool) -> (steps: Vec<KillStep>)
    ensures
        tree_kill_supported ==> steps@ == seq![
            KillStep::KillTree,
            KillStep::KillDirect,
            KillStep::AwaitExit,
        ],
        !tree_kill_supported ==> steps@ == seq![KillStep::KillDirect, KillStep::AwaitExit],
{
    let mut steps: Vec<KillStep> = Vec::new();
    if tree_kill_supported {
        steps.push(KillStep::KillTree);
    }
    steps.push(KillStep::KillDirect);
    steps.push(KillStep::AwaitExit);
    proof {
        if tree_kill_supported {
            assert(steps@ =~= seq![KillStep::KillTree, KillStep::KillDirect, KillStep::AwaitExit]);
        } else {
            assert(steps@ =~= seq![KillStep::KillDirect, KillStep::AwaitExit]);
        }
    }
    steps
}

} // verus!
