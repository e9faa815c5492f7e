//! Readiness polling against the sidecar's health endpoint.
//!
//! The prober is a bounded polling loop: until the caller-supplied timeout
//! has elapsed, perform one health check; on success stop at once, on failure
//! wait one fixed interval and retry. The driver performs the HTTP request
//! and the suspension; this module keeps the clock of the schedule and
//! decides. `run_probe_schedule` replays the whole loop against a given
//! sequence of health results, and its contract pins the loop's behaviour:
//! an endpoint that never succeeds times the wait out after roughly the
//! timeout (within one poll interval, neither at once nor ever later), and
//! an endpoint that first succeeds at poll `i` within the window ends the
//! wait successfully at exactly `i + 1` issued checks.

use crate::config::POLL_INTERVAL_MS;
use crate::errors::ReadyError;
use vstd::prelude::*;

verus! {

/// What the driver is to do next: issue one health check, or give up.
#[derive(Debug, PartialEq, Eq, Structural, Clone, Copy)]
pub enum ProbeAction {
    /// Issue one health check, with the fixed per-attempt timeout.
    Check,
    /// The timeout has elapsed; report `StartupTimeout`.
    GiveUp,
}

/// What follows one recorded health check.
#[derive(Debug, PartialEq, Eq, Structural, Clone, Copy)]
pub enum ProbeOutcome {
    /// The endpoint answered successfully; the wait is over.
    Ready,
    /// The check failed; wait one poll interval, then ask again.
    Continue,
}

/// The clock of one readiness wait.
#[derive(Debug, PartialEq, Eq, Structural, Clone, Copy)]
pub struct Prober {
    /// The caller-supplied timeout, in milliseconds.
    pub timeout_ms: u64,
    /// Schedule time spent so far, in milliseconds: one poll interval per
    /// failed check.
    pub elapsed_ms: u64,
}

impl Prober {
    /// The elapsed time never runs more than one interval past the timeout.
    pub open spec fn wf(self) -> bool {
        &&& self.timeout_ms <= u64::MAX - POLL_INTERVAL_MS
        &&& self.elapsed_ms <= self.timeout_ms + POLL_INTERVAL_MS
    }

    /// A wait that has just begun.
    pub fn new(timeout_ms: u64) -> (p: Prober)
        requires
            timeout_ms <= u64::MAX - POLL_INTERVAL_MS,
        ensures
            p.timeout_ms == timeout_ms,
            p.elapsed_ms == 0,
            p.wf(),
    {
        Prober { timeout_ms, elapsed_ms: 0 }
    }

    /// Whether to issue another health check or to give up: the wait gives
    /// up exactly when the elapsed time has passed the timeout.
    pub fn next_action(&self) -> (a: ProbeAction)
        ensures
            a is GiveUp <==> self.elapsed_ms > self.timeout_ms,
            a is Check <==> self.elapsed_ms <= self.timeout_ms,
    {
        if self.elapsed_ms > self.timeout_ms {
            ProbeAction::GiveUp
        } else {
            ProbeAction::Check
        }
    }

    /// Records the result of one issued health check. Success ends the wait;
    /// failure advances the schedule clock by one poll interval.
    pub fn record_check(&mut self, healthy: bool) -> (o: ProbeOutcome)
        requires
            old(self).wf(),
            old(self).elapsed_ms <= old(self).timeout_ms,
        ensures
            final(self).timeout_ms == old(self).timeout_ms,
            o is Ready <==> healthy,
            healthy ==> final(self).elapsed_ms == old(self).elapsed_ms,
            !healthy ==> final(self).elapsed_ms == old(self).elapsed_ms + POLL_INTERVAL_MS,
            final(self).wf(),
    {
        if healthy {
            ProbeOutcome::Ready
        } else {
            self.elapsed_ms = self.elapsed_ms + POLL_INTERVAL_MS;
            ProbeOutcome::Continue
        }
    }
}

/// The endpoint's answer to check number `i` (counted from zero): results
/// past the given sequence are failures.
pub open spec fn health_at(health: Seq<bool>, i: int) -> bool {
    0 <= i < health.len() && health[i]
}

/// No check before number `i` succeeds.
pub open spec fn none_before(health: Seq<bool>, i: int) -> bool {
    forall|j: int| 0 <= j < i ==> !health_at(health, j)
}

/// How many checks a wait with this timeout issues when none succeeds.
pub open spec fn polls_within(timeout_ms: u64) -> int {
    timeout_ms as int / POLL_INTERVAL_MS as int + 1
}

/// The report of one whole readiness wait.
#[derive(Debug)]
pub struct ProbeReport {
    /// Success, or the timeout.
    pub result: Result<(), ReadyError>,
    /// How many health checks were issued.
    pub checks: u64,
    /// Schedule time at the end of the wait, in milliseconds.
    pub elapsed_ms: u64,
}

/// Replays one whole readiness wait against the given health results:
/// `health[i]` is what check number `i` would observe, and checks past the
/// end observe failure. Against an endpoint that never succeeds within the
/// window the wait times out after `polls_within` checks, its clock within
/// one poll interval past the timeout; against one whose first success is
/// check `i` within the window the wait succeeds after exactly `i + 1`
/// checks.
pub fn run_probe_schedule(health: &Vec<bool>, timeout_ms: u64) -> (r: ProbeReport)
    requires
        timeout_ms <= u64::MAX - POLL_INTERVAL_MS,
    ensures
        (forall|i: int| 0 <= i < polls_within(timeout_ms) ==> !health_at(health@, i)) ==> {
            &&& r.result == Err::<(), ReadyError>(ReadyError::StartupTimeout)
            &&& r.checks == polls_within(timeout_ms)
            &&& timeout_ms < r.elapsed_ms <= timeout_ms + POLL_INTERVAL_MS
        },
        forall|i: int|
            #[trigger] health_at(health@, i) && none_before(health@, i) && i < polls_within(
                timeout_ms,
            ) ==> {
                &&& r.result == Ok::<(), ReadyError>(())
                &&& r.checks == i + 1
                &&& r.elapsed_ms == i * POLL_INTERVAL_MS
            },
{
    let mut prober = Prober::new(timeout_ms);
    let mut checks: u64 = 0;
    loop
        invariant
            prober.wf(),
            prober.timeout_ms == timeout_ms,
            prober.elapsed_ms == checks * POLL_INTERVAL_MS,
            checks == 0 || (checks - 1) * POLL_INTERVAL_MS <= timeout_ms,
            none_before(health@, checks as int),
        decreases timeout_ms + POLL_INTERVAL_MS - prober.elapsed_ms,
    {
        match prober.next_action() {
            ProbeAction::GiveUp => {
                proof {
                    assert(checks * POLL_INTERVAL_MS > timeout_ms);
                    assert(checks == polls_within(timeout_ms)) by (nonlinear_arith)
                        requires
                            checks * POLL_INTERVAL_MS > timeout_ms,
                            checks == 0 || (checks - 1) * POLL_INTERVAL_MS <= timeout_ms,
                            POLL_INTERVAL_MS == 200,
                            polls_within(timeout_ms) == timeout_ms as int / 200 + 1,
                    ;
                }
                return ProbeReport {
                    result: Err(ReadyError::StartupTimeout),
                    checks,
                    elapsed_ms: prober.elapsed_ms,
                };
            },
            ProbeAction::Check => {
                let healthy: bool = if checks < health.len() as u64 {
                    health[checks as usize]
                } else {
                    false
                };
                proof {
                    assert(checks * POLL_INTERVAL_MS <= timeout_ms);
                    assert((checks as int) < polls_within(timeout_ms)) by (nonlinear_arith)
                        requires
                            checks * POLL_INTERVAL_MS <= timeout_ms,
                            POLL_INTERVAL_MS == 200,
                            polls_within(timeout_ms) == timeout_ms as int / 200 + 1,
                    ;
                }
                match prober.record_check(healthy) {
                    ProbeOutcome::Ready => {
                        proof {
                            assert(health_at(health@, checks as int));
                            assert forall|i: int|
                                #[trigger] health_at(health@, i) && none_before(health@, i)
                                    && i < polls_within(timeout_ms) implies i == checks as int by {
                                if i < checks as int {
                                    assert(!health_at(health@, i));
                                } else if i > checks as int {
                                    assert(!health_at(health@, checks as int));
                                }
                            }
                        }
                        return ProbeReport {
                            result: Ok(()),
                            checks: checks + 1,
                            elapsed_ms: prober.elapsed_ms,
                        };
                    },
                    ProbeOutcome::Continue => {
                        checks = checks + 1;
                    },
                }
            },
        }
    }
}

/// Interpretation of one health request's outcome: healthy exactly on a
/// success status. A missing status (a timeout, a refused connection, a
/// transport failure) is an expected, non-exceptional failure during
/// startup, not an error.
pub fn interpret_health_response(status: Option<u16>) -> (healthy: bool)
    ensures
        healthy == (status matches Some(code) && 200 <= code < 300),
{
    match status {
        Some(code) => 200 <= code && code < 300,
        None => false,
    }
}

} // verus!
