//! Decisions of the engine's background loops: draining cycle requests,
//! retrying a failed drain, waiting for transfer back-off deadlines, and
//! putting the results of an ordered execution back together.

use vstd::prelude::*;
use crate::coordination::CycleRequest;
use crate::cycle_policy::{cycle_retry_secs, holds, recoverable_cycle_retry_delay};
use crate::transfer::{state_of_code, TransferState, TransferTask};

verus! {

// ----- draining cycle requests -----

/// What the owner does with the requests it took.
#[derive(Debug, Clone, Copy, PartialEq, Eq, Structural)]
pub enum DrainStep {
    /// Nothing to do, or the engine stops: the drain ends.
    Finish,
    /// Put the requests back and end the drain: a folder sync holds the
    /// engine, or the network is down for a non-startup cycle.
    Restore,
    /// Run one coordinated cycle for the requests.
    Run,
}

/// What the owner does with the requests it took: the startup cycle runs
/// even offline; any other waits for the network.
pub open spec fn drain_step_for(request: u32, shutdown: bool, folder_syncing: bool, online: bool) -> DrainStep {
    if request == 0 || shutdown {
        DrainStep::Finish
    } else if folder_syncing || (!holds(request, 16) && !online) {
        DrainStep::Restore
    } else {
        DrainStep::Run
    }
}

/// Decide about the requests the owner took.
pub fn drain_step(request: CycleRequest, shutdown: bool, folder_syncing: bool, online: bool) -> (r: DrainStep)
    ensures
        r == drain_step_for(request.0, shutdown, folder_syncing, online),
{
    if request.is_empty() || shutdown {
        DrainStep::Finish
    } else if folder_syncing || (!request.contains(CycleRequest::startup()) && !online) {
        DrainStep::Restore
    } else {
        DrainStep::Run
    }
}

/// What the background worker does after a drain.
#[derive(Debug, Clone, Copy, PartialEq, Eq, Structural)]
pub enum AfterDrain {
    /// Wait this many seconds, then drain again (unless the engine stopped
    /// or went offline meanwhile); `failures` counts the recoverable
    /// failures in a row.
    RetryAfter { failures: u32, delay_secs: u64 },
    /// Stop retrying; `failures` is the count to keep.
    Settle { failures: u32 },
}

/// After a drain: a recoverable failure with work still pending is retried
/// after a back-off that grows with the failures in a row; a success resets
/// the count.
pub fn after_drain(failed: bool, recoverable: bool, has_pending: bool, failures: u32) -> (r: AfterDrain)
    ensures
        failed && recoverable && has_pending ==> r == (AfterDrain::RetryAfter {
            failures: if failures == u32::MAX { failures } else { (failures + 1) as u32 },
            delay_secs: cycle_retry_secs(if failures == u32::MAX { failures } else { (failures + 1) as u32 }),
        }),
        !(failed && recoverable && has_pending) ==> r == (AfterDrain::Settle { failures: if failed { failures } else { 0 } }),
{
    if failed && recoverable && has_pending {
        let next = failures.saturating_add(1);
        AfterDrain::RetryAfter { failures: next, delay_secs: recoverable_cycle_retry_delay(next) }
    } else {
        AfterDrain::Settle { failures: if failed { failures } else { 0 } }
    }
}

/// Whether the background worker drains once more after settling: after a
/// failure only for a newer request (no hot loop on a restored one), and
/// only while the engine runs, is online, no folder sync holds it, and work
/// is pending.
pub fn may_drain_again(
    failed: bool,
    newer_request: bool,
    started: bool,
    online: bool,
    folder_syncing: bool,
    shutdown: bool,
    has_pending: bool,
) -> (b: bool)
    ensures
        b == ((!failed || newer_request) && started && online && !folder_syncing && !shutdown && has_pending),
{
    (!failed || newer_request) && started && online && !folder_syncing && !shutdown && has_pending
}

// ----- transfer back-off deadlines -----

/// What the back-off scheduler does next.
#[derive(Debug, Clone, Copy, PartialEq, Eq, Structural)]
pub enum BackoffNext {
    /// Sleep until the schedule changes (no deadline, or offline).
    AwaitChange,
    /// The deadline passed: run a recovery cycle now.
    RunNow,
    /// Sleep this many milliseconds (or until the schedule changes), then
    /// run a recovery cycle.
    SleepMs(u64),
}

/// The wait before the next back-off deadline (the remaining time is
/// capped at `i64::MAX` milliseconds, as a saturating subtraction gives).
pub open spec fn backoff_next_for(deadline: Option<i64>, now_ms: i64, online: bool) -> BackoffNext {
    match deadline {
        None => BackoffNext::AwaitChange,
        Some(d) => if d - now_ms <= 0 {
            if online { BackoffNext::RunNow } else { BackoffNext::AwaitChange }
        } else {
            BackoffNext::SleepMs(if d - now_ms > i64::MAX { i64::MAX as u64 } else { (d - now_ms) as u64 })
        },
    }
}

/// Decide what the back-off scheduler does, from the earliest deadline and
/// the current time.
pub fn backoff_next(deadline: Option<i64>, now_ms: i64, online: bool) -> (r: BackoffNext)
    ensures
        r == backoff_next_for(deadline, now_ms, online),
{
    match deadline {
        None => BackoffNext::AwaitChange,
        Some(d) => {
            let remaining: i128 = d as i128 - now_ms as i128;
            if remaining <= 0 {
                if online { BackoffNext::RunNow } else { BackoffNext::AwaitChange }
            } else {
                let capped: i128 = if remaining > i64::MAX as i128 { i64::MAX as i128 } else { remaining };
                BackoffNext::SleepMs(capped as u64)
            }
        },
    }
}

/// After a recovery cycle, the earliest deadline is still due: the
/// scheduler then waits for the schedule to change instead of looping.
pub fn still_due(next_deadline: Option<i64>, now_ms: i64) -> (b: bool)
    ensures
        b == (next_deadline matches Some(d) && d <= now_ms),
{
    match next_deadline {
        Some(d) => d <= now_ms,
        None => false,
    }
}

/// A retried task that came back needing a re-plan asks for a re-plan
/// cycle; a missing task or an unknown state does not.
pub fn needs_replan(task: Option<&TransferTask>) -> (b: bool)
    ensures
        b == (task matches Some(t) && state_of_code(t.state) == Some(TransferState::RestartRequired)),
{
    match task {
        Some(t) => match t.state_kind() {
            Some(TransferState::RestartRequired) => true,
            _ => false,
        },
        None => false,
    }
}

// ----- the waiting-for-network edge -----

/// After a transfer state change at `revision` with `waiting` tasks waiting
/// for the network: a newer revision replaces the known one and reports
/// whether the count grew; the first revision is only remembered; an older
/// or equal one changes nothing.
pub open spec fn waiting_edge_of(known: Option<(u64, u64)>, revision: u64, waiting: u64) -> (Option<(u64, u64)>, bool) {
    match known {
        None => (Some((revision, waiting)), false),
        Some((kr, kc)) => if revision > kr { (Some((revision, waiting)), waiting > kc) } else { (known, false) },
    }
}

/// The known state and the report after a transfer state change (see
/// [`waiting_edge_of`]).
pub fn waiting_edge(known: Option<(u64, u64)>, revision: u64, waiting: u64) -> (r: (Option<(u64, u64)>, bool))
    ensures
        r == waiting_edge_of(known, revision, waiting),
{
    match known {
        None => (Some((revision, waiting)), false),
        Some((kr, kc)) => if revision > kr {
            (Some((revision, waiting)), waiting > kc)
        } else {
            (known, false)
        },
    }
}

/// The baseline of the edge when the state cannot be computed: the current
/// revision, and all tasks counted as waiting unless the database shows
/// none waiting (an unreadable database counts as waiting).
pub fn fallback_waiting_baseline(revision: u64, has_waiting: Result<bool, String>) -> (r: (u64, u64))
    ensures
        r == (revision, if has_waiting == Ok::<bool, String>(false) { 0u64 } else { u64::MAX }),
{
    let waiting = match has_waiting {
        Ok(false) => false,
        _ => true,
    };
    (revision, if waiting { u64::MAX } else { 0 })
}

/// A baseline replaces the known one only when it is newer.
pub fn adopt_waiting_baseline(known: Option<(u64, u64)>, baseline: (u64, u64)) -> (r: Option<(u64, u64)>)
    ensures
        r == match known {
            Some((kr, _)) => if baseline.0 > kr { Some(baseline) } else { known },
            None => Some(baseline),
        },
{
    match known {
        Some((kr, _)) => if baseline.0 > kr { Some(baseline) } else { known },
        None => Some(baseline),
    }
}

/// The known revision never goes back, and a network failure is reported
/// only for a newer revision with more tasks waiting.
pub proof fn waiting_edge_is_monotonic(known: Option<(u64, u64)>, revision: u64, waiting: u64)
    ensures
        known matches Some((kr, _)) ==> (waiting_edge_of(known, revision, waiting).0 matches Some((nr, _)) && nr >= kr),
        waiting_edge_of(known, revision, waiting).1 ==> (known matches Some((kr, kc)) && revision > kr && waiting > kc),
{
}

/// A folder sync may begin only when none runs, no cycle is syncing, and
/// the engine is not stopping.
pub fn may_begin_folder_sync(folder_syncing: bool, syncing: bool, shutdown: bool) -> (b: bool)
    ensures
        b == (!folder_syncing && !syncing && !shutdown),
{
    !folder_syncing && !syncing && !shutdown
}

} // verus!
