//! The coordinated cycle and the sync cycle inside it, as step machines:
//! from the state and the answer to the last command, the next state and the
//! next command. The host performs each command and hands back its answer.
//!
//! A pending request is kept only where a gate explicitly restores it: a
//! startup checkpoint that cannot be built, a failed refresh, an offline
//! engine, an untrusted cloud tree or a failed path recovery. Planning
//! starts only after this cycle saw the cloud tree trusted, and only a
//! trusted snapshot may reconcile baselines.

use vstd::prelude::*;
use crate::coordination::CycleRequest;
use crate::cycle_policy::{held_back, holds, msg_startup_offline, msg_startup_untrusted, offline_outcome, refresh_for, untrusted_outcome, CloudRefresh, cloud_refresh_for};
use crate::error::AppError;

verus! {

// ----- the coordinated cycle -----

/// Where a coordinated cycle stands.
#[derive(Debug, Clone, Copy, PartialEq, Eq, Structural)]
pub enum CycleStage {
    /// Nothing done yet.
    Begin,
    /// Resetting statuses a crash left behind (startup).
    ResetStale,
    /// Building the startup checkpoint.
    LoadCheckpoint,
    /// Asking whether the engine is online before an incremental refresh.
    AwaitOnline,
    /// Refreshing the cloud tree.
    Refresh,
    /// Asking whether the cloud tree is trusted.
    CheckTrust,
    /// Recovering confirmed remote path changes.
    RecoverPaths,
    /// Purging deletion tombstones.
    PurgeTombstones,
    /// Recovering interrupted transfers (startup).
    RecoverInterrupted,
    /// Asking whether the engine is online before resuming transfers.
    AwaitOnlineRecovery,
    /// Resuming verifying, waiting and due transfers.
    ResumeRecovery,
    /// Asking for a local rescan after recovered transfers.
    Rescan,
    /// Accepting the failed items for a retry.
    Retry,
    /// The cycle handed its last command out.
    Done,
}

/// The state of a coordinated cycle.
#[derive(Debug, Clone, Copy, PartialEq, Eq, Structural)]
pub struct CyclePhase {
    pub stage: CycleStage,
    /// Whether the startup checkpoint came from the cache and still needs
    /// the changes since its cursor.
    pub startup_needs_incremental: bool,
    /// Whether this cycle saw the cloud tree trusted.
    pub trusted_seen: bool,
    /// Whether a recovery completed some transfer.
    pub recovered: bool,
}

/// The answer to the last command.
#[derive(Debug)]
pub enum CycleEvent {
    /// The cycle begins.
    Started,
    StaleReset,
    CheckpointLoaded { from_cache: bool },
    StartupCheckpointFailed(AppError),
    /// Whether the engine is online.
    Online(bool),
    RefreshDone,
    RefreshFailed(AppError),
    /// Whether the cloud tree is trusted.
    Trusted(bool),
    PathsRecovered,
    PathRecoveryFailed(AppError),
    TombstonesPurged,
    /// A recovery ran; `completed` when it completed some transfer.
    Recovered { completed: bool },
    /// The rescan was asked for.
    Requested,
    RetryAccepted,
    /// The host could not perform the last command.
    Failed(AppError),
}

/// The next thing the host does.
#[derive(Debug)]
pub enum CycleCommand {
    ResetStale,
    LoadStartupCheckpoint,
    CheckOnline,
    RefreshFull,
    RefreshIncremental,
    CheckTrust,
    /// Promote ambiguous restarts, then recover confirmed remote path changes.
    RecoverPaths,
    PurgeTombstones,
    RecoverInterrupted,
    ResumeRecovery,
    /// Ask for a local rescan and an incremental refresh.
    RequestRescan,
    RetryFailed,
    /// Run the sync cycle (see [`sync_cycle_step`]); its result is the cycle's.
    Plan,
    /// Put the request back and end the cycle with this result.
    RestoreAndFinish(Result<(), AppError>),
    /// End the cycle with this result; the request is not kept.
    Finish(Result<(), AppError>),
}

/// What a step is required to give.
pub enum CycleNext {
    /// This state and this command.
    Exactly(CyclePhase, CycleCommand),
    /// End the cycle in this state, keeping the request, with the
    /// held-back result.
    HeldBack(CyclePhase, Result<(), Seq<char>>),
    /// The event does not answer the current stage: end with an error.
    OutOfOrder,
}

/// A result with the given shape: `Ok`, or a generic error with the message.
pub open spec fn outcome_is(r: Result<(), AppError>, expected: Result<(), Seq<char>>) -> bool {
    match (r, expected) {
        (Ok(()), Ok(())) => true,
        (Err(e), Err(m)) => e is Generic && e.message_view() == m,
        _ => false,
    }
}

pub open spec fn msg_out_of_order() -> Seq<char> {
    "同步周期事件顺序无效"@
}

/// The phase with its stage set.
pub open spec fn at(p: CyclePhase, stage: CycleStage) -> CyclePhase {
    CyclePhase { stage, ..p }
}

/// The step `r` is what `next` requires, from phase `p`.
pub open spec fn cycle_step_meets(p: CyclePhase, r: (CyclePhase, CycleCommand), next: CycleNext) -> bool {
    match next {
        CycleNext::Exactly(q, c) => r == (q, c),
        CycleNext::HeldBack(q, h) => r.0 == q && (r.1 matches CycleCommand::RestoreAndFinish(res)
            && outcome_is(res, h)),
        CycleNext::OutOfOrder => r.0 == at(p, CycleStage::Done) && (r.1 matches CycleCommand::Finish(Err(e))
            && e is Generic && e.message_view() == msg_out_of_order()),
    }
}

/// Bring the cloud tree up to date as the request asks.
pub open spec fn refresh_next(request: u32, p: CyclePhase) -> CycleNext {
    match refresh_for(request, p.startup_needs_incremental) {
        CloudRefresh::Full => CycleNext::Exactly(at(p, CycleStage::Refresh), CycleCommand::RefreshFull),
        CloudRefresh::Incremental => CycleNext::Exactly(at(p, CycleStage::AwaitOnline), CycleCommand::CheckOnline),
        CloudRefresh::Keep => CycleNext::Exactly(at(p, CycleStage::CheckTrust), CycleCommand::CheckTrust),
    }
}

/// After the stale statuses: the startup checkpoint first when the startup
/// catches up with the cloud, else the refresh.
pub open spec fn after_reset(request: u32, p: CyclePhase) -> CycleNext {
    if holds(request, 16) && holds(request, 2) {
        CycleNext::Exactly(at(p, CycleStage::LoadCheckpoint), CycleCommand::LoadStartupCheckpoint)
    } else {
        refresh_next(request, p)
    }
}

/// Plan, once this cycle saw the cloud tree trusted; else hold back.
pub open spec fn plan_next(request: u32, p: CyclePhase) -> CycleNext {
    if p.trusted_seen {
        CycleNext::Exactly(at(p, CycleStage::Done), CycleCommand::Plan)
    } else {
        CycleNext::HeldBack(at(p, CycleStage::Done), held_back(request, msg_startup_untrusted()))
    }
}

/// After the rescan request: the retry when asked, then planning.
pub open spec fn after_rescan(request: u32, p: CyclePhase) -> CycleNext {
    if holds(request, 32) {
        CycleNext::Exactly(at(p, CycleStage::Retry), CycleCommand::RetryFailed)
    } else {
        plan_next(request, p)
    }
}

/// After the recoveries: a rescan when one completed a transfer.
pub open spec fn after_recovery(request: u32, p: CyclePhase) -> CycleNext {
    if p.recovered {
        CycleNext::Exactly(at(p, CycleStage::Rescan), CycleCommand::RequestRescan)
    } else {
        after_rescan(request, p)
    }
}

/// After the startup recovery: resume transfers when the network came back.
pub open spec fn after_startup_recovery(request: u32, p: CyclePhase) -> CycleNext {
    if holds(request, 8) {
        CycleNext::Exactly(at(p, CycleStage::AwaitOnlineRecovery), CycleCommand::CheckOnline)
    } else {
        after_recovery(request, p)
    }
}

/// After the tombstones: recover interrupted transfers at startup.
pub open spec fn after_purge(request: u32, p: CyclePhase) -> CycleNext {
    if holds(request, 16) {
        CycleNext::Exactly(at(p, CycleStage::RecoverInterrupted), CycleCommand::RecoverInterrupted)
    } else {
        after_startup_recovery(request, p)
    }
}

/// The next step of a coordinated cycle for `request` from `p` on `e`.
pub open spec fn coordinated_cycle_next(request: u32, p: CyclePhase, e: CycleEvent) -> CycleNext {
    let done = at(p, CycleStage::Done);
    match e {
        CycleEvent::Failed(err) => CycleNext::Exactly(done, CycleCommand::Finish(Err(err))),
        CycleEvent::StartupCheckpointFailed(err) => CycleNext::Exactly(done, CycleCommand::RestoreAndFinish(Err(err))),
        CycleEvent::RefreshFailed(err) => CycleNext::Exactly(done, CycleCommand::RestoreAndFinish(Err(err))),
        CycleEvent::PathRecoveryFailed(err) => CycleNext::Exactly(done, CycleCommand::RestoreAndFinish(Err(err))),
        CycleEvent::Trusted(false) => CycleNext::HeldBack(done, held_back(request, msg_startup_untrusted())),
        CycleEvent::Started => if p.stage == CycleStage::Begin {
            if holds(request, 16) {
                CycleNext::Exactly(at(p, CycleStage::ResetStale), CycleCommand::ResetStale)
            } else {
                after_reset(request, p)
            }
        } else { CycleNext::OutOfOrder },
        CycleEvent::StaleReset => if p.stage == CycleStage::ResetStale { after_reset(request, p) } else { CycleNext::OutOfOrder },
        CycleEvent::CheckpointLoaded { from_cache } => if p.stage == CycleStage::LoadCheckpoint {
            refresh_next(request, CyclePhase { startup_needs_incremental: from_cache, ..p })
        } else { CycleNext::OutOfOrder },
        CycleEvent::Online(online) => if p.stage == CycleStage::AwaitOnline {
            if online {
                CycleNext::Exactly(at(p, CycleStage::Refresh), CycleCommand::RefreshIncremental)
            } else {
                CycleNext::HeldBack(done, held_back(request, msg_startup_offline()))
            }
        } else if p.stage == CycleStage::AwaitOnlineRecovery {
            if online {
                CycleNext::Exactly(at(p, CycleStage::ResumeRecovery), CycleCommand::ResumeRecovery)
            } else {
                CycleNext::Exactly(done, CycleCommand::RestoreAndFinish(Ok(())))
            }
        } else { CycleNext::OutOfOrder },
        CycleEvent::RefreshDone => if p.stage == CycleStage::Refresh {
            CycleNext::Exactly(at(p, CycleStage::CheckTrust), CycleCommand::CheckTrust)
        } else { CycleNext::OutOfOrder },
        CycleEvent::Trusted(true) => if p.stage == CycleStage::CheckTrust {
            CycleNext::Exactly(CyclePhase { stage: CycleStage::RecoverPaths, trusted_seen: true, ..p }, CycleCommand::RecoverPaths)
        } else { CycleNext::OutOfOrder },
        CycleEvent::PathsRecovered => if p.stage == CycleStage::RecoverPaths {
            CycleNext::Exactly(at(p, CycleStage::PurgeTombstones), CycleCommand::PurgeTombstones)
        } else { CycleNext::OutOfOrder },
        CycleEvent::TombstonesPurged => if p.stage == CycleStage::PurgeTombstones { after_purge(request, p) } else { CycleNext::OutOfOrder },
        CycleEvent::Recovered { completed } => if p.stage == CycleStage::RecoverInterrupted {
            after_startup_recovery(request, CyclePhase { recovered: p.recovered || completed, ..p })
        } else if p.stage == CycleStage::ResumeRecovery {
            after_recovery(request, CyclePhase { recovered: p.recovered || completed, ..p })
        } else { CycleNext::OutOfOrder },
        CycleEvent::Requested => if p.stage == CycleStage::Rescan { after_rescan(request, p) } else { CycleNext::OutOfOrder },
        CycleEvent::RetryAccepted => if p.stage == CycleStage::Retry { plan_next(request, p) } else { CycleNext::OutOfOrder },
    }
}

/// The state a coordinated cycle starts in; answer it with
/// [`CycleEvent::Started`].
pub fn begin_coordinated_cycle() -> (p: CyclePhase)
    ensures
        p == (CyclePhase { stage: CycleStage::Begin, startup_needs_incremental: true, trusted_seen: false, recovered: false }),
{
    CyclePhase { stage: CycleStage::Begin, startup_needs_incremental: true, trusted_seen: false, recovered: false }
}

fn exactly(p: CyclePhase, stage: CycleStage, c: CycleCommand) -> (r: (CyclePhase, CycleCommand))
    ensures
        r == (at(p, stage), c),
{
    (CyclePhase { stage, ..p }, c)
}

fn out_of_order(p: CyclePhase) -> (r: (CyclePhase, CycleCommand))
    ensures
        cycle_step_meets(p, r, CycleNext::OutOfOrder),
{
    (CyclePhase { stage: CycleStage::Done, ..p },
        CycleCommand::Finish(Err(AppError::generic("同步周期事件顺序无效"))))
}

fn untrusted_hold(request: CycleRequest, p: CyclePhase) -> (r: (CyclePhase, CycleCommand))
    ensures
        cycle_step_meets(p, r, CycleNext::HeldBack(at(p, CycleStage::Done), held_back(request.0, msg_startup_untrusted()))),
{
    let out = untrusted_outcome(request);
    (CyclePhase { stage: CycleStage::Done, ..p }, CycleCommand::RestoreAndFinish(out))
}

fn refresh_step(request: CycleRequest, p: CyclePhase) -> (r: (CyclePhase, CycleCommand))
    ensures
        cycle_step_meets(p, r, refresh_next(request.0, p)),
{
    match cloud_refresh_for(request, p.startup_needs_incremental) {
        CloudRefresh::Full => exactly(p, CycleStage::Refresh, CycleCommand::RefreshFull),
        CloudRefresh::Incremental => exactly(p, CycleStage::AwaitOnline, CycleCommand::CheckOnline),
        CloudRefresh::Keep => exactly(p, CycleStage::CheckTrust, CycleCommand::CheckTrust),
    }
}

fn reset_step(request: CycleRequest, p: CyclePhase) -> (r: (CyclePhase, CycleCommand))
    ensures
        cycle_step_meets(p, r, after_reset(request.0, p)),
{
    if request.contains(CycleRequest::startup()) && request.contains(CycleRequest::cloud_incremental()) {
        exactly(p, CycleStage::LoadCheckpoint, CycleCommand::LoadStartupCheckpoint)
    } else {
        refresh_step(request, p)
    }
}

fn plan_step(request: CycleRequest, p: CyclePhase) -> (r: (CyclePhase, CycleCommand))
    ensures
        cycle_step_meets(p, r, plan_next(request.0, p)),
{
    if p.trusted_seen {
        exactly(p, CycleStage::Done, CycleCommand::Plan)
    } else {
        untrusted_hold(request, p)
    }
}

fn rescan_step(request: CycleRequest, p: CyclePhase) -> (r: (CyclePhase, CycleCommand))
    ensures
        cycle_step_meets(p, r, after_rescan(request.0, p)),
{
    if request.contains(CycleRequest::retry()) {
        exactly(p, CycleStage::Retry, CycleCommand::RetryFailed)
    } else {
        plan_step(request, p)
    }
}

fn recovery_step(request: CycleRequest, p: CyclePhase) -> (r: (CyclePhase, CycleCommand))
    ensures
        cycle_step_meets(p, r, after_recovery(request.0, p)),
{
    if p.recovered {
        exactly(p, CycleStage::Rescan, CycleCommand::RequestRescan)
    } else {
        rescan_step(request, p)
    }
}

fn startup_recovery_step(request: CycleRequest, p: CyclePhase) -> (r: (CyclePhase, CycleCommand))
    ensures
        cycle_step_meets(p, r, after_startup_recovery(request.0, p)),
{
    if request.contains(CycleRequest::online_recovery()) {
        exactly(p, CycleStage::AwaitOnlineRecovery, CycleCommand::CheckOnline)
    } else {
        recovery_step(request, p)
    }
}

fn purge_step(request: CycleRequest, p: CyclePhase) -> (r: (CyclePhase, CycleCommand))
    ensures
        cycle_step_meets(p, r, after_purge(request.0, p)),
{
    if request.contains(CycleRequest::startup()) {
        exactly(p, CycleStage::RecoverInterrupted, CycleCommand::RecoverInterrupted)
    } else {
        startup_recovery_step(request, p)
    }
}

/// One step of the coordinated cycle for `request`: the next state and
/// command after `event` answered the last command in `phase`.
pub fn coordinated_cycle_step(request: CycleRequest, phase: CyclePhase, event: CycleEvent) -> (r: (CyclePhase, CycleCommand))
    ensures
        cycle_step_meets(phase, r, coordinated_cycle_next(request.0, phase, event)),
        (event is RefreshFailed || event is StartupCheckpointFailed || event is PathRecoveryFailed)
            ==> r.1 matches CycleCommand::RestoreAndFinish(Err(_)),
        event matches CycleEvent::Trusted(false) ==> r.1 matches CycleCommand::RestoreAndFinish(res)
            && outcome_is(res, held_back(request.0, msg_startup_untrusted())),
        r.1 is Plan ==> phase.trusted_seen,
{
    let p = phase;
    match event {
        CycleEvent::Failed(err) => exactly(p, CycleStage::Done, CycleCommand::Finish(Err(err))),
        CycleEvent::StartupCheckpointFailed(err) => exactly(p, CycleStage::Done, CycleCommand::RestoreAndFinish(Err(err))),
        CycleEvent::RefreshFailed(err) => exactly(p, CycleStage::Done, CycleCommand::RestoreAndFinish(Err(err))),
        CycleEvent::PathRecoveryFailed(err) => exactly(p, CycleStage::Done, CycleCommand::RestoreAndFinish(Err(err))),
        CycleEvent::Trusted(trusted) => {
            if !trusted {
                untrusted_hold(request, p)
            } else if p.stage == CycleStage::CheckTrust {
                (CyclePhase { stage: CycleStage::RecoverPaths, trusted_seen: true, ..p }, CycleCommand::RecoverPaths)
            } else {
                out_of_order(p)
            }
        },
        CycleEvent::Started => {
            if p.stage == CycleStage::Begin {
                if request.contains(CycleRequest::startup()) {
                    exactly(p, CycleStage::ResetStale, CycleCommand::ResetStale)
                } else {
                    reset_step(request, p)
                }
            } else {
                out_of_order(p)
            }
        },
        CycleEvent::StaleReset => {
            if p.stage == CycleStage::ResetStale { reset_step(request, p) } else { out_of_order(p) }
        },
        CycleEvent::CheckpointLoaded { from_cache } => {
            if p.stage == CycleStage::LoadCheckpoint {
                let q = CyclePhase { startup_needs_incremental: from_cache, ..p };
                refresh_step(request, q)
            } else {
                out_of_order(p)
            }
        },
        CycleEvent::Online(online) => {
            if p.stage == CycleStage::AwaitOnline {
                if online {
                    exactly(p, CycleStage::Refresh, CycleCommand::RefreshIncremental)
                } else {
                    let out = offline_outcome(request);
                    (CyclePhase { stage: CycleStage::Done, ..p }, CycleCommand::RestoreAndFinish(out))
                }
            } else if p.stage == CycleStage::AwaitOnlineRecovery {
                if online {
                    exactly(p, CycleStage::ResumeRecovery, CycleCommand::ResumeRecovery)
                } else {
                    exactly(p, CycleStage::Done, CycleCommand::RestoreAndFinish(Ok(())))
                }
            } else {
                out_of_order(p)
            }
        },
        CycleEvent::RefreshDone => {
            if p.stage == CycleStage::Refresh {
                exactly(p, CycleStage::CheckTrust, CycleCommand::CheckTrust)
            } else {
                out_of_order(p)
            }
        },
        CycleEvent::PathsRecovered => {
            if p.stage == CycleStage::RecoverPaths {
                exactly(p, CycleStage::PurgeTombstones, CycleCommand::PurgeTombstones)
            } else {
                out_of_order(p)
            }
        },
        CycleEvent::TombstonesPurged => {
            if p.stage == CycleStage::PurgeTombstones { purge_step(request, p) } else { out_of_order(p) }
        },
        CycleEvent::Recovered { completed } => {
            let q = CyclePhase { recovered: p.recovered || completed, ..p };
            if p.stage == CycleStage::RecoverInterrupted {
                startup_recovery_step(request, q)
            } else if p.stage == CycleStage::ResumeRecovery {
                recovery_step(request, q)
            } else {
                out_of_order(p)
            }
        },
        CycleEvent::Requested => {
            if p.stage == CycleStage::Rescan { rescan_step(request, p) } else { out_of_order(p) }
        },
        CycleEvent::RetryAccepted => {
            if p.stage == CycleStage::Retry { plan_step(request, p) } else { out_of_order(p) }
        },
    }
}

/// Whether a step keeps the request.
pub open spec fn keeps_request(next: CycleNext) -> bool {
    match next {
        CycleNext::Exactly(_, c) => c is RestoreAndFinish,
        CycleNext::HeldBack(_, _) => true,
        CycleNext::OutOfOrder => false,
    }
}

/// A pending request is kept only where a gate restores it: the startup
/// checkpoint or a refresh failed, the engine is offline, the cloud tree is
/// not trusted, the path recovery failed, or planning was reached without
/// a trusted tree.
pub proof fn requests_kept_only_at_gates(request: u32, p: CyclePhase, e: CycleEvent)
    requires
        keeps_request(coordinated_cycle_next(request, p, e)),
    ensures
        e is StartupCheckpointFailed || e is RefreshFailed || e is PathRecoveryFailed
            || e == CycleEvent::Online(false) || e == CycleEvent::Trusted(false) || !p.trusted_seen,
{
}

/// Every gate keeps the request: a failed startup checkpoint, refresh or
/// path recovery, and an untrusted cloud tree, in any stage.
pub proof fn gates_keep_the_request(request: u32, p: CyclePhase, e: CycleEvent)
    requires
        e is StartupCheckpointFailed || e is RefreshFailed || e is PathRecoveryFailed || e == CycleEvent::Trusted(false),
    ensures
        keeps_request(coordinated_cycle_next(request, p, e)),
{
}

/// Planning is asked for only after this cycle saw the cloud tree trusted,
/// and a cycle sees the tree trusted only when the host answered so.
pub proof fn plans_only_after_trust(request: u32, p: CyclePhase, e: CycleEvent)
    ensures
        coordinated_cycle_next(request, p, e) matches CycleNext::Exactly(q, c) ==> {
            &&& (c is Plan ==> p.trusted_seen)
            &&& (q.trusted_seen && !p.trusted_seen ==> e == CycleEvent::Trusted(true))
        },
{
}

// ----- the sync cycle -----

/// Where a sync cycle stands.
#[derive(Debug, Clone, Copy, PartialEq, Eq, Structural)]
pub enum SyncStage {
    Begin,
    ScanLocal,
    LoadSnapshot,
    Reconcile,
    Plan,
    Execute,
    CommitMoves,
    Apply,
    Rescan,
    Publish,
    Done,
}

/// The state of a sync cycle.
#[derive(Debug, Clone, Copy, PartialEq, Eq, Structural)]
pub struct SyncCycleState {
    pub stage: SyncStage,
    /// Whether the snapshot's cloud tree is trusted.
    pub cloud_tree_trusted: bool,
    /// Whether a cloud move succeeded.
    pub moved: bool,
    /// Whether a successful action changed content.
    pub content_changed: bool,
}

/// The answer to the last command of a sync cycle.
#[derive(Debug)]
pub enum SyncCycleEvent {
    Started,
    Scanned,
    SnapshotLoaded { trusted: bool },
    Reconciled,
    /// The plan is ready; `empty` when it has no action.
    Planned { empty: bool },
    /// The actions ran (see `settlement::cycle_moved_in_cloud` and
    /// `settlement::cycle_changed_content`).
    Executed { moved: bool, content_changed: bool },
    MovesCommitted,
    Applied,
    Requested,
    Published,
    Failed(AppError),
}

/// The next thing the host does in a sync cycle.
#[derive(Debug)]
pub enum SyncCycleCommand {
    ScanLocal,
    /// Read the cloud tree, its trust and the baselines.
    LoadSnapshot,
    /// Complete missing baselines and review the failed ones, then reload them.
    ReconcileBaselines,
    /// Plan and filter the actions; renames are detected only on a trusted tree.
    Plan { trusted: bool },
    /// Nothing to do: publish the idle state and end successfully.
    FinishIdle,
    Execute,
    /// Commit the confirmed cloud moves to the checkpoint.
    CommitMoves,
    ApplyResults,
    RequestRescan,
    Publish { content_changed: bool },
    Finish(Result<(), AppError>),
}

/// What a sync-cycle step is required to give.
pub enum SyncNext {
    Exactly(SyncCycleState, SyncCycleCommand),
    OutOfOrder,
}

pub open spec fn sync_at(s: SyncCycleState, stage: SyncStage) -> SyncCycleState {
    SyncCycleState { stage, ..s }
}

/// The step `r` is what `next` requires, from state `s`.
pub open spec fn sync_step_meets(s: SyncCycleState, r: (SyncCycleState, SyncCycleCommand), next: SyncNext) -> bool {
    match next {
        SyncNext::Exactly(q, c) => r == (q, c),
        SyncNext::OutOfOrder => r.0 == sync_at(s, SyncStage::Done) && (r.1 matches SyncCycleCommand::Finish(Err(e))
            && e is Generic && e.message_view() == msg_out_of_order()),
    }
}

/// Publishing the cycle, after the rescan request when a move succeeded.
pub open spec fn after_apply(s: SyncCycleState) -> SyncNext {
    if s.moved {
        SyncNext::Exactly(sync_at(s, SyncStage::Rescan), SyncCycleCommand::RequestRescan)
    } else {
        SyncNext::Exactly(sync_at(s, SyncStage::Publish), SyncCycleCommand::Publish { content_changed: s.content_changed })
    }
}

/// The next step of a sync cycle from `s` on `e`.
pub open spec fn sync_cycle_next(s: SyncCycleState, e: SyncCycleEvent) -> SyncNext {
    match e {
        SyncCycleEvent::Failed(err) => SyncNext::Exactly(sync_at(s, SyncStage::Done), SyncCycleCommand::Finish(Err(err))),
        SyncCycleEvent::Started => if s.stage == SyncStage::Begin {
            SyncNext::Exactly(sync_at(s, SyncStage::ScanLocal), SyncCycleCommand::ScanLocal)
        } else { SyncNext::OutOfOrder },
        SyncCycleEvent::Scanned => if s.stage == SyncStage::ScanLocal {
            SyncNext::Exactly(sync_at(s, SyncStage::LoadSnapshot), SyncCycleCommand::LoadSnapshot)
        } else { SyncNext::OutOfOrder },
        SyncCycleEvent::SnapshotLoaded { trusted } => if s.stage == SyncStage::LoadSnapshot {
            if trusted {
                SyncNext::Exactly(SyncCycleState { stage: SyncStage::Reconcile, cloud_tree_trusted: true, ..s },
                    SyncCycleCommand::ReconcileBaselines)
            } else {
                SyncNext::Exactly(SyncCycleState { stage: SyncStage::Plan, cloud_tree_trusted: false, ..s },
                    SyncCycleCommand::Plan { trusted: false })
            }
        } else { SyncNext::OutOfOrder },
        SyncCycleEvent::Reconciled => if s.stage == SyncStage::Reconcile {
            SyncNext::Exactly(sync_at(s, SyncStage::Plan), SyncCycleCommand::Plan { trusted: s.cloud_tree_trusted })
        } else { SyncNext::OutOfOrder },
        SyncCycleEvent::Planned { empty } => if s.stage == SyncStage::Plan {
            if empty {
                SyncNext::Exactly(sync_at(s, SyncStage::Done), SyncCycleCommand::FinishIdle)
            } else {
                SyncNext::Exactly(sync_at(s, SyncStage::Execute), SyncCycleCommand::Execute)
            }
        } else { SyncNext::OutOfOrder },
        SyncCycleEvent::Executed { moved, content_changed } => if s.stage == SyncStage::Execute {
            SyncNext::Exactly(SyncCycleState { stage: SyncStage::CommitMoves, moved, content_changed, ..s },
                SyncCycleCommand::CommitMoves)
        } else { SyncNext::OutOfOrder },
        SyncCycleEvent::MovesCommitted => if s.stage == SyncStage::CommitMoves {
            SyncNext::Exactly(sync_at(s, SyncStage::Apply), SyncCycleCommand::ApplyResults)
        } else { SyncNext::OutOfOrder },
        SyncCycleEvent::Applied => if s.stage == SyncStage::Apply { after_apply(s) } else { SyncNext::OutOfOrder },
        SyncCycleEvent::Requested => if s.stage == SyncStage::Rescan {
            SyncNext::Exactly(sync_at(s, SyncStage::Publish), SyncCycleCommand::Publish { content_changed: s.content_changed })
        } else { SyncNext::OutOfOrder },
        SyncCycleEvent::Published => if s.stage == SyncStage::Publish {
            SyncNext::Exactly(sync_at(s, SyncStage::Done), SyncCycleCommand::Finish(Ok(())))
        } else { SyncNext::OutOfOrder },
    }
}

/// The state a sync cycle starts in; answer it with [`SyncCycleEvent::Started`].
pub fn begin_sync_cycle() -> (s: SyncCycleState)
    ensures
        s == (SyncCycleState { stage: SyncStage::Begin, cloud_tree_trusted: false, moved: false, content_changed: false }),
{
    SyncCycleState { stage: SyncStage::Begin, cloud_tree_trusted: false, moved: false, content_changed: false }
}

fn sync_exactly(s: SyncCycleState, stage: SyncStage, c: SyncCycleCommand) -> (r: (SyncCycleState, SyncCycleCommand))
    ensures
        r == (sync_at(s, stage), c),
{
    (SyncCycleState { stage, ..s }, c)
}

fn sync_out_of_order(s: SyncCycleState) -> (r: (SyncCycleState, SyncCycleCommand))
    ensures
        sync_step_meets(s, r, SyncNext::OutOfOrder),
{
    (SyncCycleState { stage: SyncStage::Done, ..s }, SyncCycleCommand::Finish(Err(AppError::generic("同步周期事件顺序无效"))))
}

/// One step of the sync cycle: the next state and command after `event`
/// answered the last command in `state`.
pub fn sync_cycle_step(state: SyncCycleState, event: SyncCycleEvent) -> (r: (SyncCycleState, SyncCycleCommand))
    ensures
        sync_step_meets(state, r, sync_cycle_next(state, event)),
        r.1 is ReconcileBaselines ==> r.0.cloud_tree_trusted && event == (SyncCycleEvent::SnapshotLoaded { trusted: true }),
{
    let s = state;
    match event {
        SyncCycleEvent::Failed(err) => sync_exactly(s, SyncStage::Done, SyncCycleCommand::Finish(Err(err))),
        SyncCycleEvent::Started => {
            if s.stage == SyncStage::Begin { sync_exactly(s, SyncStage::ScanLocal, SyncCycleCommand::ScanLocal) } else { sync_out_of_order(s) }
        },
        SyncCycleEvent::Scanned => {
            if s.stage == SyncStage::ScanLocal { sync_exactly(s, SyncStage::LoadSnapshot, SyncCycleCommand::LoadSnapshot) } else { sync_out_of_order(s) }
        },
        SyncCycleEvent::SnapshotLoaded { trusted } => {
            if s.stage == SyncStage::LoadSnapshot {
                if trusted {
                    (SyncCycleState { stage: SyncStage::Reconcile, cloud_tree_trusted: true, ..s }, SyncCycleCommand::ReconcileBaselines)
                } else {
                    (SyncCycleState { stage: SyncStage::Plan, cloud_tree_trusted: false, ..s }, SyncCycleCommand::Plan { trusted: false })
                }
            } else {
                sync_out_of_order(s)
            }
        },
        SyncCycleEvent::Reconciled => {
            if s.stage == SyncStage::Reconcile {
                sync_exactly(s, SyncStage::Plan, SyncCycleCommand::Plan { trusted: s.cloud_tree_trusted })
            } else {
                sync_out_of_order(s)
            }
        },
        SyncCycleEvent::Planned { empty } => {
            if s.stage == SyncStage::Plan {
                if empty {
                    sync_exactly(s, SyncStage::Done, SyncCycleCommand::FinishIdle)
                } else {
                    sync_exactly(s, SyncStage::Execute, SyncCycleCommand::Execute)
                }
            } else {
                sync_out_of_order(s)
            }
        },
        SyncCycleEvent::Executed { moved, content_changed } => {
            if s.stage == SyncStage::Execute {
                (SyncCycleState { stage: SyncStage::CommitMoves, moved, content_changed, ..s }, SyncCycleCommand::CommitMoves)
            } else {
                sync_out_of_order(s)
            }
        },
        SyncCycleEvent::MovesCommitted => {
            if s.stage == SyncStage::CommitMoves { sync_exactly(s, SyncStage::Apply, SyncCycleCommand::ApplyResults) } else { sync_out_of_order(s) }
        },
        SyncCycleEvent::Applied => {
            if s.stage == SyncStage::Apply {
                if s.moved {
                    sync_exactly(s, SyncStage::Rescan, SyncCycleCommand::RequestRescan)
                } else {
                    sync_exactly(s, SyncStage::Publish, SyncCycleCommand::Publish { content_changed: s.content_changed })
                }
            } else {
                sync_out_of_order(s)
            }
        },
        SyncCycleEvent::Requested => {
            if s.stage == SyncStage::Rescan {
                sync_exactly(s, SyncStage::Publish, SyncCycleCommand::Publish { content_changed: s.content_changed })
            } else {
                sync_out_of_order(s)
            }
        },
        SyncCycleEvent::Published => {
            if s.stage == SyncStage::Publish { sync_exactly(s, SyncStage::Done, SyncCycleCommand::Finish(Ok(()))) } else { sync_out_of_order(s) }
        },
    }
}

/// Only a trusted snapshot reconciles baselines, and the cloud moves are
/// committed to the checkpoint before the results reach the baselines; a
/// rescan is asked for only after a cloud move succeeded.
pub proof fn sync_cycle_order(s: SyncCycleState, e: SyncCycleEvent)
    ensures
        sync_cycle_next(s, e) matches SyncNext::Exactly(q, c) ==> {
            &&& (c is ReconcileBaselines ==> q.cloud_tree_trusted && e == (SyncCycleEvent::SnapshotLoaded { trusted: true }))
            &&& (c is ApplyResults ==> e is MovesCommitted && s.stage == SyncStage::CommitMoves)
            &&& (c is RequestRescan ==> s.moved)
            &&& (c matches SyncCycleCommand::Plan { trusted } ==> trusted == q.cloud_tree_trusted)
        },
{
}

} // verus!
