//! The subprocess timeout harness's decision logic.
//!
//! A spawned command is polled on a fixed interval.  Each poll observes
//! whether the process has exited and how much wall-clock time has elapsed,
//! and decides one of three actions: collect the output, keep waiting, or
//! kill the process (then reap it) and report a timeout.  The surrounding
//! process owns the actual spawn, poll, sleep and kill calls; it feeds the
//! observations in and performs the decided action.

use vstd::prelude::*;

verus! {

/// Default timeout for daemon commands: two seconds.
pub const WL_CLIPBOARD_TIMEOUT_MS: u64 = 2000;

/// Fixed polling interval of the harness.
pub const POLL_INTERVAL_MS: u64 = 50;

/// What the harness does after one poll of the child process.
#[derive(PartialEq, Eq, Structural)]
pub enum PollDecision {
    /// The process exited: drain stdout and stderr and return the output.
    Collect,
    /// The timeout was exceeded: kill the process, reap it, report timeout.
    Kill,
    /// Neither: sleep one interval and poll again.
    Wait,
}

/// The harness's decision given one observation: a finished process is
/// always collected; otherwise the process is killed exactly when the
/// elapsed wall-clock time exceeds the timeout.
pub open spec fn poll_decision_spec(exited: bool, elapsed_ms: u64, timeout_ms: u64) -> PollDecision {
    if exited {
        PollDecision::Collect
    } else if elapsed_ms > timeout_ms {
        PollDecision::Kill
    } else {
        PollDecision::Wait
    }
}

/// One step of the harness's polling loop.
pub fn poll_step(exited: bool, elapsed_ms: u64, timeout_ms: u64) -> (r: PollDecision)
    ensures
        r == poll_decision_spec(exited, elapsed_ms, timeout_ms),
{
    if exited {
        PollDecision::Collect
    } else if elapsed_ms > timeout_ms {
        PollDecision::Kill
    } else {
        PollDecision::Wait
    }
}

/// A still-running process is waited on exactly while the elapsed time is
/// within the timeout, and killed at the first poll that observes the
/// timeout exceeded; so the harness signals the timeout within one polling
/// interval of the deadline and never lets the process linger.
pub proof fn lemma_timeout_boundary(elapsed_ms: u64, timeout_ms: u64)
    ensures
        (poll_decision_spec(false, elapsed_ms, timeout_ms) == PollDecision::Wait) <==> elapsed_ms
            <= timeout_ms,
        (poll_decision_spec(false, elapsed_ms, timeout_ms) == PollDecision::Kill) <==> elapsed_ms
            > timeout_ms,
        poll_decision_spec(true, elapsed_ms, timeout_ms) == PollDecision::Collect,
{
}

} // verus!
