//! Laws on what the library's decisions are for, stated over their inputs
//! and results in plain terms: which way a one-sided change syncs, when an
//! expired token is refreshed, which successes write a baseline, which
//! actions survive a recent deletion, and what a revived tombstone becomes.

use vstd::prelude::*;
use crate::action_filters::{active_task, keeps_against_oscillation, keeps_clear_of_tasks, meets_task};
use crate::model::opt_str;
use crate::path_map::PathMap;
use crate::paths::in_subtree;
use crate::planner::DbSnapshotEntry;
use crate::transfer::TransferTask;
use crate::error::{AppError, DriveApiErrorCode};
use crate::model::{
    pending_prefix, DriveFileView, LocalFileEntryView, SyncAction, SyncActionType, SyncActionView, SyncItem, CLOUD_ONLY,
    CONFLICT, DELETED, SYNCED,
};
use crate::paths::has_prefix;
use crate::planner::{all_paths, decide_in, decide_spec, plan_over, DbSnapshotEntryView, SyncSnapshot};
use crate::properties::plan_is_the_kept_decisions;
use crate::reconcile::{start_for, ReconcileStartView};
use crate::retry_policy::{classify_spec, session_expired_code, RecoveryContext, RecoveryDecision};
use crate::transfer::TransferErrorKind;
use crate::settlement::{step_for, success_settles, ActionResult, LocalStat, SettlementStepView, UpsertPlan};
use crate::path_recovery::BlockedPathChange;
use crate::action_filters::blocked_identity;

verus! {

// ----- planning: a change on one side syncs toward the other -----

/// The local file still has the size and time its baseline recorded.
pub open spec fn local_as_recorded(l: LocalFileEntryView, d: DbSnapshotEntryView) -> bool {
    &&& d.local_mtime == Some(l.mtime)
    &&& d.local_size matches Some(s) ==> s == l.size as i64
}

/// The cloud file carries an edit time other than the one its baseline
/// recorded.
pub open spec fn cloud_edited_since(c: DriveFileView, d: DbSnapshotEntryView) -> bool {
    c.edited_time matches Some(e) && d.cloud_edited_time != Some(e)
}

/// When only the cloud side of a synced file changed (the local file has
/// content and still matches its baseline, the cloud edit time moved, the
/// baseline is not a pending upload), the file is downloaded: the decision
/// is a download of that cloud file to the local path, never an upload.
pub proof fn cloud_only_change_downloads(
    path: Seq<char>,
    l: LocalFileEntryView,
    c: DriveFileView,
    d: DbSnapshotEntryView,
    startup: bool,
)
    requires
        !l.is_placeholder,
        !c.is_folder(),
        !has_prefix(d.file_id, pending_prefix()),
        local_as_recorded(l, d),
        cloud_edited_since(c, d),
    ensures
        decide_spec(path, Some(l), Some(c), Some(d), startup) matches Some(a) && {
            &&& a.action_type == SyncActionType::Download
            &&& a.cloud_file == Some(c)
            &&& a.relative_path == Some(path)
            &&& a.local_path == Some(l.absolute_path)
        },
{
}

/// When only the local side of a synced file changed (the cloud edit time
/// is still the recorded one), the file is uploaded, never downloaded.
pub proof fn local_only_change_uploads(
    path: Seq<char>,
    l: LocalFileEntryView,
    c: DriveFileView,
    d: DbSnapshotEntryView,
    startup: bool,
)
    requires
        !l.is_placeholder,
        !c.is_folder(),
        !has_prefix(d.file_id, pending_prefix()),
        !local_as_recorded(l, d),
        !cloud_edited_since(c, d),
    ensures
        decide_spec(path, Some(l), Some(c), Some(d), startup) matches Some(a) && {
            &&& a.action_type == SyncActionType::Upload
            &&& a.relative_path == Some(path)
        },
{
}

/// When both sides of a synced file changed, neither is overwritten: the
/// decision is a conflict copy that carries the cloud file and the local
/// path.
pub proof fn both_changed_is_a_conflict(
    path: Seq<char>,
    l: LocalFileEntryView,
    c: DriveFileView,
    d: DbSnapshotEntryView,
    startup: bool,
)
    requires
        !l.is_placeholder,
        !c.is_folder(),
        !has_prefix(d.file_id, pending_prefix()),
        !local_as_recorded(l, d),
        cloud_edited_since(c, d),
    ensures
        decide_spec(path, Some(l), Some(c), Some(d), startup) matches Some(a) && {
            &&& a.action_type == SyncActionType::CreateConflictCopy
            &&& a.cloud_file == Some(c)
            &&& a.local_path == Some(l.absolute_path)
        },
{
}

/// A synced file that changed on neither side needs no action.
pub proof fn unchanged_file_needs_nothing(
    path: Seq<char>,
    l: LocalFileEntryView,
    c: DriveFileView,
    d: DbSnapshotEntryView,
    startup: bool,
)
    requires
        !l.is_placeholder,
        !c.is_folder(),
        !has_prefix(d.file_id, pending_prefix()),
        local_as_recorded(l, d),
        !cloud_edited_since(c, d),
    ensures
        decide_spec(path, Some(l), Some(c), Some(d), startup) is None,
{
}

/// A new local file (content, no cloud file, no baseline) is uploaded as a
/// new file, and a new cloud file (no local entry, no baseline) gets a
/// placeholder that carries it.
pub proof fn new_files_reach_the_other_side(
    path: Seq<char>,
    l: LocalFileEntryView,
    c: DriveFileView,
    startup: bool,
)
    ensures
        !l.is_placeholder && !l.is_folder ==> (decide_spec(path, Some(l), None, None, startup) matches Some(a)
            && a.action_type == SyncActionType::Upload && a.file_id is None && a.local_path == Some(l.absolute_path)),
        !c.is_folder() ==> (decide_spec(path, None, Some(c), None, startup) matches Some(a)
            && a.action_type == SyncActionType::CreatePlaceholder && a.cloud_file == Some(c)),
{
}

/// A file deleted locally during a session is deleted in the cloud; a file
/// deleted in the cloud is deleted locally only when the local copy is
/// unchanged, and backed up when it holds changes; a baseline still waiting
/// for its first upload never leads to a local deletion.
pub proof fn deletions_follow_the_deleting_side(
    path: Seq<char>,
    l: LocalFileEntryView,
    c: DriveFileView,
    d: DbSnapshotEntryView,
)
    ensures
        !c.is_folder() ==> (decide_spec(path, None, Some(c), Some(d), false) matches Some(a)
            && a.action_type == SyncActionType::DeleteFromCloud),
        (!l.is_placeholder && !l.is_folder && !has_prefix(d.file_id, pending_prefix())) ==>
            (decide_spec(path, Some(l), None, Some(d), false) matches Some(a) && {
                &&& local_as_recorded(l, d) ==> a.action_type == SyncActionType::DeleteFromLocal
                &&& !local_as_recorded(l, d) ==> a.action_type == SyncActionType::BackupBeforeCloudDelete
            }),
        has_prefix(d.file_id, pending_prefix()) ==> (decide_spec(path, Some(l), None, Some(d), false) matches Some(a)
            ==> a.action_type == SyncActionType::Upload),
{
}

/// In a plan of a snapshot that knows a synced file on all three sides,
/// where only the cloud side changed, the plan downloads that cloud file
/// to its path and plans no upload of it.
pub proof fn plan_downloads_cloud_only_change(snap: SyncSnapshot, path: Seq<char>)
    requires
        snap.wf(),
        snap.local.as_map().contains_key(path),
        snap.cloud.as_map().contains_key(path),
        snap.db.as_map().contains_key(path),
        !snap.local.as_map()[path].is_placeholder,
        !snap.cloud.as_map()[path].is_folder(),
        !has_prefix(snap.db.as_map()[path].file_id, pending_prefix()),
        local_as_recorded(snap.local.as_map()[path], snap.db.as_map()[path]),
        cloud_edited_since(snap.cloud.as_map()[path], snap.db.as_map()[path]),
    ensures
        exists|a: SyncActionView| #[trigger] plan_over(all_paths(snap), snap).contains(a)
            && a.relative_path == Some(path) && a.action_type == SyncActionType::Download
            && a.cloud_file == Some(snap.cloud.as_map()[path]),
        forall|a: SyncActionView| #[trigger] plan_over(all_paths(snap), snap).contains(a)
            && a.relative_path == Some(path) ==> a.action_type != SyncActionType::Upload,
{
    let l = snap.local.as_map()[path];
    let c = snap.cloud.as_map()[path];
    let d = snap.db.as_map()[path];
    cloud_only_change_downloads(path, l, c, d, snap.is_startup_resume);
    let a = decide_in(path, snap)->0;
    plan_is_the_kept_decisions(snap, a);
    assert(all_paths(snap).contains(path));
    assert forall|b: SyncActionView| #[trigger] plan_over(all_paths(snap), snap).contains(b)
        && b.relative_path == Some(path) implies b.action_type != SyncActionType::Upload by {
        plan_is_the_kept_decisions(snap, b);
    }
}

// ----- retry policy: an expired token is refreshed once -----

/// A drive request answered 401 (not a quota error, no transport failure,
/// no expired upload session) is retried with a refreshed token when no
/// refresh was replayed yet; once a refresh was replayed it is never
/// refreshed again and the transfer fails as an authentication error.
pub proof fn unauthorized_refreshes_once(
    code: DriveApiErrorCode,
    error_code: Option<String>,
    retry_after: Option<crate::error::RetryAfter>,
    reached: bool,
    replayed: bool,
    message: String,
    context: RecoveryContext,
)
    requires
        code != DriveApiErrorCode::QuotaExceeded,
        !(error_code matches Some(ec) && ec@ == session_expired_code()),
    ensures ({
        let error = AppError::DriveApi {
            code,
            status_code: Some(401u16),
            error_code,
            retry_after,
            transport_kind: None,
            request_may_have_reached_server: reached,
            auth_already_replayed: replayed,
            message,
        };
        let r = classify_spec(error, context);
        &&& r.kind == TransferErrorKind::Auth
        &&& !r.consumes_retry_budget
        &&& (!replayed && !context.auth_already_replayed) ==> r.decision == RecoveryDecision::RefreshAuth
        &&& (replayed || context.auth_already_replayed) ==> r.decision == RecoveryDecision::Fail
    }),
{
}

/// A rate-limited request (429) backs off and charges the retry budget
/// while the budget lasts, and fails once it is used up; a quota error
/// never retries.
pub proof fn rate_limit_backs_off_within_budget(
    code: DriveApiErrorCode,
    error_code: Option<String>,
    retry_after: Option<crate::error::RetryAfter>,
    reached: bool,
    replayed: bool,
    message: String,
    context: RecoveryContext,
)
    requires
        !(error_code matches Some(ec) && ec@ == session_expired_code()),
    ensures ({
        let error = AppError::DriveApi {
            code,
            status_code: Some(429u16),
            error_code,
            retry_after,
            transport_kind: None,
            request_may_have_reached_server: reached,
            auth_already_replayed: replayed,
            message,
        };
        let r = classify_spec(error, context);
        &&& code != DriveApiErrorCode::QuotaExceeded && context.attempt_count < context.max_attempts
            ==> (r.decision is Backoff && r.consumes_retry_budget && r.kind == TransferErrorKind::RateLimit)
        &&& code != DriveApiErrorCode::QuotaExceeded && context.attempt_count >= context.max_attempts
            ==> r.decision == RecoveryDecision::Fail
        &&& code == DriveApiErrorCode::QuotaExceeded ==> (r.decision == RecoveryDecision::Fail
            && r.kind == TransferErrorKind::Quota)
    }),
{
}

// ----- settlement: a success writes its baseline -----

/// A successful action that neither removes its path (a deletion or a
/// backup before one) nor is a transfer (whose durable task settles its own
/// baseline) writes a success baseline for its path: a placeholder, a
/// folder creation, a cloud move or a conflict copy is never left
/// unrecorded.
pub proof fn structural_success_writes_baseline(action: SyncAction, result: ActionResult, cloud: Map<Seq<char>, DriveFileView>)
    requires
        result.success,
        action.relative_path is Some,
        action.action_type != SyncActionType::DeleteFromCloud,
        action.action_type != SyncActionType::DeleteFromLocal,
        action.action_type != SyncActionType::BackupBeforeCloudDelete,
        action.action_type != SyncActionType::Upload,
        action.action_type != SyncActionType::Download,
    ensures
        step_for(action, result, cloud) == Ok::<SettlementStepView, Seq<char>>(SettlementStepView::SettleSuccess),
{
}

/// The success baseline of a placeholder, a folder creation or a conflict
/// copy is written at the action's path under the settled file id, with
/// the status that says what is local: cloud-only for a placeholder, in
/// conflict for a conflict copy, synced for a folder; only a folder row is
/// a folder.
pub proof fn structural_success_baseline_status(
    r: Result<Option<UpsertPlan>, Seq<char>>,
    action: SyncAction,
    result: ActionResult,
    baselines: Seq<SyncItem>,
    stat: Option<LocalStat>,
    now_ms: i64,
)
    requires
        success_settles(r, action, result, baselines, stat, now_ms),
        action.action_type == SyncActionType::CreatePlaceholder || action.action_type == SyncActionType::CreateFolder
            || action.action_type == SyncActionType::CreateConflictCopy,
        action.relative_path is Some,
        result.cloud_file is Some,
        stat matches Some(st) ==> !st.is_symlink && st.mtime_ms is Some
            && (if action.action_type == SyncActionType::CreateFolder { st.is_dir } else { st.is_file }),
    ensures
        r matches Ok(Some(plan)) && {
            &&& plan.item.local_path@ == action.relative_path->0@
            &&& plan.item.file_id@ == result.cloud_file->0.id@
            &&& plan.item.status == if action.action_type == SyncActionType::CreatePlaceholder { CLOUD_ONLY }
                else if action.action_type == SyncActionType::CreateConflictCopy { CONFLICT } else { SYNCED }
            &&& plan.item.is_folder == (action.action_type == SyncActionType::CreateFolder)
            &&& plan.item.error_message is None
        },
{
}

/// A confirmed deletion (or a backup before a cloud deletion) removes the
/// baseline of its path: the whole subtree for a cloud folder, else the row
/// of the action's file id.
pub proof fn confirmed_deletion_removes_baseline(action: SyncAction, result: ActionResult, cloud: Map<Seq<char>, DriveFileView>)
    requires
        result.success,
        action.relative_path is Some,
        action.action_type == SyncActionType::DeleteFromCloud || action.action_type == SyncActionType::DeleteFromLocal
            || action.action_type == SyncActionType::BackupBeforeCloudDelete,
    ensures
        step_for(action, result, cloud) matches Ok(SettlementStepView::DeleteBaseline { path, subtree, .. })
            && path == action.relative_path->0@
            && (subtree <==> (action.action_type == SyncActionType::DeleteFromCloud
                && cloud.contains_key(path) && cloud[path].is_folder())),
{
}

// ----- anti-oscillation: a recent deletion is not undone -----

/// After the anti-oscillation filter, no action but a cloud deletion remains
/// on a path deleted a moment ago; every cloud deletion and every action on
/// another path (or without a path) remains.
pub proof fn recent_deletion_is_not_undone(actions: Seq<SyncAction>, recently_deleted: Map<Seq<char>, i64>)
    ensures ({
        let kept = actions.filter(|a: SyncAction| keeps_against_oscillation(a, recently_deleted));
        &&& forall|i: int| 0 <= i < kept.len() && ((#[trigger] kept[i]).relative_path matches Some(p)
            && recently_deleted.contains_key(p@)) ==> kept[i].action_type == SyncActionType::DeleteFromCloud
        &&& forall|i: int| 0 <= i < actions.len() && ((#[trigger] actions[i]).action_type == SyncActionType::DeleteFromCloud
            || actions[i].relative_path is None || !recently_deleted.contains_key(actions[i].relative_path->0@))
            ==> kept.contains(actions[i])
    }),
{
    let pred = |a: SyncAction| keeps_against_oscillation(a, recently_deleted);
    let kept = actions.filter(pred);
    assert forall|i: int| 0 <= i < kept.len() && ((#[trigger] kept[i]).relative_path matches Some(p)
        && recently_deleted.contains_key(p@)) implies kept[i].action_type == SyncActionType::DeleteFromCloud by {
        actions.lemma_filter_pred(pred, i);
    }
    assert forall|i: int| 0 <= i < actions.len() && ((#[trigger] actions[i]).action_type == SyncActionType::DeleteFromCloud
        || actions[i].relative_path is None || !recently_deleted.contains_key(actions[i].relative_path->0@))
        implies kept.contains(actions[i]) by {
        actions.lemma_filter_contains(pred, i);
    }
}

// ----- live transfers hold their files and paths -----

/// After the live-transfer filter, no action remains for the file of a live
/// transfer task, at its path or below it; while no task is live, every
/// action remains.
pub proof fn live_transfers_hold_their_files(
    actions: Seq<SyncAction>,
    tasks: Seq<TransferTask>,
    db: PathMap<DbSnapshotEntry>,
)
    ensures ({
        let kept = actions.filter(|a: SyncAction| keeps_clear_of_tasks(a, tasks, db));
        &&& forall|i: int, k: int| 0 <= i < kept.len() && 0 <= k < tasks.len() && active_task(#[trigger] tasks[k]) ==> {
            &&& !((#[trigger] kept[i]).file_id is Some && opt_str(kept[i].file_id) == opt_str(tasks[k].file_id))
            &&& (kept[i].relative_path is Some && tasks[k].relative_path is Some)
                ==> !in_subtree(kept[i].relative_path->0@, tasks[k].relative_path->0@)
        }
        &&& (forall|k: int| 0 <= k < tasks.len() ==> !active_task(#[trigger] tasks[k])) ==> kept == actions
    }),
{
    let pred = |a: SyncAction| keeps_clear_of_tasks(a, tasks, db);
    let kept = actions.filter(pred);
    assert forall|i: int, k: int| 0 <= i < kept.len() && 0 <= k < tasks.len() && active_task(#[trigger] tasks[k]) implies {
        &&& !((#[trigger] kept[i]).file_id is Some && opt_str(kept[i].file_id) == opt_str(tasks[k].file_id))
        &&& (kept[i].relative_path is Some && tasks[k].relative_path is Some)
            ==> !in_subtree(kept[i].relative_path->0@, tasks[k].relative_path->0@)
    } by {
        actions.lemma_filter_pred(pred, i);
        assert(!meets_task(kept[i], tasks[k], db));
    }
    if forall|k: int| 0 <= k < tasks.len() ==> !active_task(#[trigger] tasks[k]) {
        assert forall|i: int| 0 <= i < actions.len() implies #[trigger] pred(actions[i]) by {}
        lemma_filter_all(actions, pred);
    }
}

/// Filtering by a predicate that every element meets keeps the sequence.
proof fn lemma_filter_all<T>(s: Seq<T>, pred: spec_fn(T) -> bool)
    requires
        forall|i: int| 0 <= i < s.len() ==> #[trigger] pred(s[i]),
    ensures
        s.filter(pred) == s,
    decreases s.len(),
{
    reveal(Seq::filter);
    if s.len() > 0 {
        lemma_filter_all(s.drop_last(), pred);
        assert(s.drop_last().push(s.last()) =~= s);
    } else {
        assert(s.filter(pred) =~= s);
    }
}

// ----- reconciliation: a re-pasted file revives its tombstone -----

/// When a local entry meets a deleted baseline (a tombstone) at its path,
/// reconciliation revives the baseline: as synced exactly when the entry
/// has content, as cloud-only exactly when it is a placeholder. A live
/// baseline is never revived.
pub proof fn tombstone_revives_by_content(
    rel: Seq<char>,
    entry: LocalFileEntryView,
    db: DbSnapshotEntryView,
    cloud: Map<Seq<char>, DriveFileView>,
    blocked: Seq<BlockedPathChange>,
)
    ensures
        start_for(rel, entry, Some(db), cloud, blocked) matches Ok(s) ==> match s {
            ReconcileStartView::Known { revive } | ReconcileStartView::VerifyFolder { revive, .. } => {
                &&& db.status == DELETED ==> (revive == Some(SYNCED) <==> !entry.is_placeholder)
                &&& db.status == DELETED ==> (revive == Some(CLOUD_ONLY) <==> entry.is_placeholder)
                &&& db.status != DELETED ==> revive is None
            },
            _ => true,
        },
        !blocked_identity(Some(rel), None, blocked) && !(entry.is_folder && db.is_folder)
            ==> start_for(rel, entry, Some(db), cloud, blocked) matches Ok(ReconcileStartView::Known { .. }),
{
    assert(SYNCED != CLOUD_ONLY);
}

} // verus!
