//! Properties that hold across the library's operations.

use vstd::prelude::*;
use crate::model::{pending_prefix, DriveFileView, LocalFileEntryView, SyncActionType, SyncActionView};
use crate::paths::has_prefix;
use crate::planner::{all_paths, append_new, decide_in, decide_spec, emitted, local_changed, plan_over, DbSnapshotEntryView, SyncSnapshot};
use crate::model::{SyncAction, DriveFile};
use crate::settlement::{
    publish_step, publish_upto, place_file, merge_upto, step_for, ActionResult, Caches, SettlementStepView,
    RecoveredCloudFile,
};
use crate::remote_verification::{
    created_by_id_verdict, expected_size, listing_verdict, timed_files, timed_candidate, updated_verdict,
    FileLookup, RemoteVerificationView,
};
use crate::renames::{deletes_move_source, keeps_after_renames, plan_after_renames, RenameRecord};
use crate::transfer::TransferTask;

verus! {

/// Without a trusted cloud tree, a plan deletes nothing, locally or in the
/// cloud: an absent cloud entry is no evidence.
pub proof fn untrusted_plan_deletes_nothing(paths: Seq<Seq<char>>, snap: SyncSnapshot)
    requires
        !snap.cloud_tree_trusted,
    ensures
        forall|i: int| 0 <= i < plan_over(paths, snap).len() ==>
            (#[trigger] plan_over(paths, snap)[i]).action_type != SyncActionType::DeleteFromLocal
            && plan_over(paths, snap)[i].action_type != SyncActionType::DeleteFromCloud,
    decreases paths.len(),
{
    if paths.len() > 0 {
        untrusted_plan_deletes_nothing(paths.drop_last(), snap);
    }
}

/// A plan carries no plain skip: a skip stays only when it brings the cloud
/// file that settles a pending baseline.
pub proof fn plan_has_no_plain_skip(paths: Seq<Seq<char>>, snap: SyncSnapshot)
    ensures
        forall|i: int| 0 <= i < plan_over(paths, snap).len()
            && (#[trigger] plan_over(paths, snap)[i]).action_type == SyncActionType::Skip
            ==> plan_over(paths, snap)[i].cloud_file is Some,
    decreases paths.len(),
{
    if paths.len() > 0 {
        plan_has_no_plain_skip(paths.drop_last(), snap);
    }
}

/// Every planned action is for one of the planned paths.
proof fn plan_paths_from(paths: Seq<Seq<char>>, snap: SyncSnapshot)
    ensures
        forall|i: int| 0 <= i < plan_over(paths, snap).len() ==>
            ((#[trigger] plan_over(paths, snap)[i]).relative_path matches Some(p) && paths.contains(p)),
    decreases paths.len(),
{
    if paths.len() > 0 {
        let prefix = paths.drop_last();
        plan_paths_from(prefix, snap);
        assert forall|i: int| 0 <= i < plan_over(paths, snap).len() implies
            ((#[trigger] plan_over(paths, snap)[i]).relative_path matches Some(p) && paths.contains(p)) by {
            if i < plan_over(prefix, snap).len() {
                let p = plan_over(prefix, snap)[i].relative_path->0;
                let j = choose|j: int| 0 <= j < prefix.len() && prefix[j] == p;
                assert(paths[j] == p);
            } else {
                assert(paths[paths.len() - 1] == paths.last());
            }
        }
    }
}

/// Over distinct paths, each path gets at most one action.
proof fn plan_paths_distinct(paths: Seq<Seq<char>>, snap: SyncSnapshot)
    requires
        paths.no_duplicates(),
    ensures
        forall|i: int, j: int| 0 <= i < j < plan_over(paths, snap).len() ==>
            (#[trigger] plan_over(paths, snap)[i]).relative_path != (#[trigger] plan_over(paths, snap)[j]).relative_path,
    decreases paths.len(),
{
    if paths.len() > 0 {
        let prefix = paths.drop_last();
        assert(prefix.no_duplicates());
        plan_paths_distinct(prefix, snap);
        plan_paths_from(prefix, snap);
        assert(!prefix.contains(paths.last())) by {
            if prefix.contains(paths.last()) {
                let k = choose|k: int| 0 <= k < prefix.len() && prefix[k] == paths.last();
                assert(paths[k] == paths[paths.len() - 1]);
            }
        }
    }
}

/// Appending new keys to a sequence without duplicates keeps it without
/// duplicates.
proof fn append_new_distinct(acc: Seq<Seq<char>>, more: Seq<Seq<char>>)
    requires
        acc.no_duplicates(),
    ensures
        append_new(acc, more).no_duplicates(),
    decreases more.len(),
{
    if more.len() > 0 {
        append_new_distinct(acc, more.drop_last());
        let prefix = append_new(acc, more.drop_last());
        if !prefix.contains(more.last()) {
            assert forall|a: int, b: int| 0 <= a < b < prefix.push(more.last()).len() implies
                prefix.push(more.last())[a] != prefix.push(more.last())[b] by {
                if b == prefix.len() {
                    assert(prefix[a] == prefix.push(more.last())[a]);
                }
            }
        }
    }
}

/// A plan gives each path at most one action.
pub proof fn plan_one_action_per_path(snap: SyncSnapshot)
    requires
        snap.wf(),
    ensures
        forall|i: int, j: int| 0 <= i < j < plan_over(all_paths(snap), snap).len() ==>
            (#[trigger] plan_over(all_paths(snap), snap)[i]).relative_path
                != (#[trigger] plan_over(all_paths(snap), snap)[j]).relative_path,
{
    append_new_distinct(snap.local.keys(), snap.cloud.keys());
    append_new_distinct(append_new(snap.local.keys(), snap.cloud.keys()), snap.db.keys());
    plan_paths_distinct(all_paths(snap), snap);
}

/// The planned actions over `paths` are exactly the decisions for those
/// paths that a plan keeps.
proof fn plan_over_contains(paths: Seq<Seq<char>>, snap: SyncSnapshot, a: SyncActionView)
    ensures
        plan_over(paths, snap).contains(a) <==> (a.relative_path matches Some(p) && paths.contains(p)
            && decide_in(p, snap) == Some(a) && emitted(a, snap.cloud_tree_trusted)),
    decreases paths.len(),
{
    if paths.len() > 0 {
        let prefix = paths.drop_last();
        let q = paths.last();
        plan_over_contains(prefix, snap, a);
        plan_paths_from(paths, snap);
        let plan = plan_over(paths, snap);
        let before = plan_over(prefix, snap);
        assert(paths =~= prefix.push(q));
        if plan.contains(a) {
            let k = choose|k: int| 0 <= k < plan.len() && plan[k] == a;
            if k < before.len() {
                assert(before[k] == a);
                assert(before.contains(a));
            } else {
                assert(decide_in(q, snap) == Some(a));
            }
        }
        if a.relative_path matches Some(p) && paths.contains(p) && decide_in(p, snap) == Some(a)
            && emitted(a, snap.cloud_tree_trusted) {
            let p = a.relative_path->0;
            let j = choose|j: int| 0 <= j < paths.len() && paths[j] == p;
            if j < prefix.len() {
                assert(prefix[j] == p);
                assert(prefix.contains(p));
                let k = choose|k: int| 0 <= k < before.len() && before[k] == a;
                assert(plan[k] == a);
            } else {
                assert(p == q);
                assert(plan[plan.len() - 1] == a);
            }
        }
    }
}

/// `append_new` holds exactly the elements of both sequences.
proof fn append_new_contains(acc: Seq<Seq<char>>, more: Seq<Seq<char>>, k: Seq<char>)
    ensures
        append_new(acc, more).contains(k) <==> (acc.contains(k) || more.contains(k)),
    decreases more.len(),
{
    if more.len() > 0 {
        let rest = more.drop_last();
        append_new_contains(acc, rest, k);
        let prefix = append_new(acc, rest);
        assert(more =~= rest.push(more.last()));
        if more.contains(k) && !rest.contains(k) {
            let j = choose|j: int| 0 <= j < more.len() && more[j] == k;
            if j < rest.len() {
                assert(rest[j] == k);
            }
        }
        if rest.contains(k) {
            let j = choose|j: int| 0 <= j < rest.len() && rest[j] == k;
            assert(more[j] == k);
        }
        if !prefix.contains(more.last()) {
            let pushed = prefix.push(more.last());
            if pushed.contains(k) {
                let j = choose|j: int| 0 <= j < pushed.len() && pushed[j] == k;
                if j < prefix.len() {
                    assert(prefix[j] == k);
                }
            }
            if prefix.contains(k) {
                let j = choose|j: int| 0 <= j < prefix.len() && prefix[j] == k;
                assert(pushed[j] == k);
            }
            assert(pushed[prefix.len() as int] == more.last());
        }
    }
}

/// A plan holds exactly the decisions that it keeps, one for each path any
/// side knows: an action is planned if and only if it is the decision for
/// its path, that path is known locally, in the cloud or in the database,
/// and it is neither a plain skip nor a deletion on an untrusted tree.
pub proof fn plan_is_the_kept_decisions(snap: SyncSnapshot, a: SyncActionView)
    requires
        snap.wf(),
    ensures
        plan_over(all_paths(snap), snap).contains(a) <==> (a.relative_path matches Some(p)
            && all_paths(snap).contains(p) && decide_in(p, snap) == Some(a) && emitted(a, snap.cloud_tree_trusted)),
        forall|p: Seq<char>| #[trigger] all_paths(snap).contains(p) <==> (snap.local.as_map().contains_key(p)
            || snap.cloud.as_map().contains_key(p) || snap.db.as_map().contains_key(p)),
{
    plan_over_contains(all_paths(snap), snap, a);
    assert forall|p: Seq<char>| #[trigger] all_paths(snap).contains(p) <==> (snap.local.as_map().contains_key(p)
        || snap.cloud.as_map().contains_key(p) || snap.db.as_map().contains_key(p)) by {
        append_new_contains(snap.local.keys(), snap.cloud.keys(), p);
        append_new_contains(append_new(snap.local.keys(), snap.cloud.keys()), snap.db.keys(), p);
    }
}

/// A baseline that still waits for its first upload (a pending id) never
/// leads to a local deletion or a backup before a cloud deletion.
pub proof fn pending_baseline_never_deleted_locally(
    path: Seq<char>,
    local: Option<LocalFileEntryView>,
    cloud: Option<DriveFileView>,
    db: DbSnapshotEntryView,
    startup: bool,
)
    requires
        has_prefix(db.file_id, pending_prefix()),
    ensures
        (decide_spec(path, local, cloud, Some(db), startup) matches Some(a) ==>
            a.action_type != SyncActionType::DeleteFromLocal
            && a.action_type != SyncActionType::BackupBeforeCloudDelete),
{
}

/// During startup recovery, a local file that still matches its baseline is
/// never deleted for a missing cloud entry: the tree may not have caught up.
pub proof fn startup_keeps_unchanged_local_file(
    path: Seq<char>,
    local: LocalFileEntryView,
    db: DbSnapshotEntryView,
)
    requires
        !has_prefix(db.file_id, pending_prefix()),
        !local_changed(local, db),
    ensures
        (decide_spec(path, Some(local), None, Some(db), true) matches Some(a)
            && a.action_type == SyncActionType::Skip),
{
}

/// A failed result never moves a baseline forward: at most it records the
/// failure, and a deferred failure or one on a pending id records nothing.
pub proof fn failure_never_settles_success(action: SyncAction, result: ActionResult, cloud: Map<Seq<char>, DriveFileView>)
    requires
        !result.success,
    ensures
        step_for(action, result, cloud) == Ok::<SettlementStepView, Seq<char>>(SettlementStepView::Keep)
            || step_for(action, result, cloud) matches Ok(SettlementStepView::MarkFailed { .. }),
        result.deferred ==> step_for(action, result, cloud)
            == Ok::<SettlementStepView, Seq<char>>(SettlementStepView::Keep),
        (action.file_id matches Some(f) && has_prefix(f@, pending_prefix())) ==> step_for(action, result, cloud)
            == Ok::<SettlementStepView, Seq<char>>(SettlementStepView::Keep),
{
}

/// A failed result leaves the caches as they were, and its settlement marks
/// only the action's own row (its id at its path) failed, with the result's
/// message; a deferred failure settles nothing.
pub proof fn failures_leave_rows_and_caches(
    c: Caches,
    action: SyncAction,
    result: ActionResult,
    cloud: Map<Seq<char>, DriveFileView>,
    now_ms: i64,
)
    requires
        !result.success,
    ensures
        publish_step(c, action, result, cloud, now_ms) == c,
        step_for(action, result, cloud) matches Ok(SettlementStepView::MarkFailed { file_id, path, message }) ==> {
            &&& !result.deferred
            &&& action.file_id matches Some(f) && f@ == file_id && !has_prefix(f@, pending_prefix())
            &&& action.relative_path matches Some(p) && p@ == path
            &&& message == crate::model::opt_str(result.error_message)
        },
{
}

/// No two paths of the cloud tree carry the same id.
pub open spec fn ids_unique(cloud: Map<Seq<char>, DriveFileView>) -> bool {
    forall|a: Seq<char>, b: Seq<char>| #[trigger] cloud.contains_key(a) && #[trigger] cloud.contains_key(b) && a != b
        ==> cloud[a].id != cloud[b].id
}

/// Putting a confirmed file at its path keeps ids unique and holds the file
/// there.
pub proof fn placing_keeps_ids_unique(
    c: (Map<Seq<char>, DriveFileView>, Map<Seq<char>, Seq<char>>),
    rel: Seq<char>,
    f: DriveFileView,
)
    requires
        ids_unique(c.0),
    ensures
        ids_unique(place_file(c, rel, f).0),
        place_file(c, rel, f).0[rel] == f,
        place_file(c, rel, f).1[rel] == f.id,
{
    let r = place_file(c, rel, f).0;
    assert forall|a: Seq<char>, b: Seq<char>| #[trigger] r.contains_key(a) && #[trigger] r.contains_key(b) && a != b
        implies r[a].id != r[b].id by {
        if a != rel && b != rel {
            assert(c.0.contains_key(a) && c.0.contains_key(b));
        } else if a == rel {
            assert(c.0.contains_key(b) && !(b != rel && c.0[b].id == f.id));
        } else {
            assert(c.0.contains_key(a) && !(a != rel && c.0[a].id == f.id));
        }
    }
}

/// Publishing one settled result keeps the ids of the cloud tree unique.
pub proof fn publishing_keeps_ids_unique(
    c: Caches,
    action: SyncAction,
    result: ActionResult,
    cloud0: Map<Seq<char>, DriveFileView>,
    now_ms: i64,
)
    requires
        ids_unique(c.0),
    ensures
        ids_unique(publish_step(c, action, result, cloud0, now_ms).0),
{
    let r = publish_step(c, action, result, cloud0, now_ms).0;
    match action.relative_path {
        None => {},
        Some(rel) => {
            if result.success && action.action_type == SyncActionType::DeleteFromCloud {
                assert forall|a: Seq<char>, b: Seq<char>| #[trigger] r.contains_key(a) && #[trigger] r.contains_key(b) && a != b
                    implies r[a].id != r[b].id by {
                    assert(c.0.contains_key(a) && c.0.contains_key(b));
                }
            } else if result.success && crate::settlement::settled_file(action, result) is Some {
                placing_keeps_ids_unique((c.0, c.1), rel@, crate::settlement::settled_file(action, result)->0@);
            }
        },
    }
}

/// Publishing a whole cycle's results keeps the ids of the cloud tree unique.
pub proof fn publishing_cycle_keeps_ids_unique(
    c0: Caches,
    actions: Seq<SyncAction>,
    results: Seq<ActionResult>,
    n: int,
    now_ms: i64,
)
    requires
        ids_unique(c0.0),
    ensures
        ids_unique(publish_upto(c0, actions, results, n, now_ms).0),
    decreases n,
{
    if n > 0 {
        publishing_cycle_keeps_ids_unique(c0, actions, results, n - 1, now_ms);
        publishing_keeps_ids_unique(publish_upto(c0, actions, results, n - 1, now_ms), actions[n - 1],
            results[n - 1], c0.0, now_ms);
    }
}

/// Merging recovered files keeps the ids of the cloud tree unique.
pub proof fn merging_keeps_ids_unique(
    c0: (Map<Seq<char>, DriveFileView>, Map<Seq<char>, Seq<char>>),
    recovered: Seq<RecoveredCloudFile>,
    n: int,
)
    requires
        ids_unique(c0.0),
    ensures
        ids_unique(merge_upto(c0, recovered, n).0),
    decreases n,
{
    if n > 0 {
        merging_keeps_ids_unique(c0, recovered, n - 1);
        placing_keeps_ids_unique(merge_upto(c0, recovered, n - 1), recovered[n - 1].relative_path@,
            recovered[n - 1].file@);
    }
}

/// A verified upload is committed only as a file with the task's name and
/// expected size, whichever evidence decided it.
pub proof fn committed_upload_has_task_identity(
    task: TransferTask,
    remote_id: Seq<char>,
    file_id: Seq<char>,
    lookup: FileLookup,
    files: Seq<DriveFile>,
    local_sha256: Option<Seq<char>>,
)
    ensures
        created_by_id_verdict(task, remote_id, lookup, local_sha256) matches RemoteVerificationView::Committed(f)
            ==> f.name == task.name@ && f.size == expected_size(task),
        listing_verdict(task, files, local_sha256) matches RemoteVerificationView::Committed(f)
            ==> f.name == task.name@ && f.size == expected_size(task),
        updated_verdict(task, file_id, lookup) matches RemoteVerificationView::Committed(f)
            ==> f.name == task.name@ && f.size == expected_size(task),
{
    let p = |f: DriveFile| timed_candidate(task, f, local_sha256);
    if timed_files(task, files, local_sha256).len() == 1 {
        files.lemma_filter_pred(p, 0);
    }
}

/// After the moves are known, no cloud deletion of a moved source (or of a
/// folder above one) remains in the plan.
pub proof fn moved_sources_are_not_deleted(
    actions: Seq<SyncAction>,
    moves: Seq<RenameRecord>,
    replaced: Seq<(String, String)>,
)
    ensures
        forall|i: int| 0 <= i < plan_after_renames(actions, moves, replaced).len() ==>
            !deletes_move_source(#[trigger] plan_after_renames(actions, moves, replaced)[i], moves),
{
    let p = |a: SyncAction| keeps_after_renames(a, moves, replaced);
    assert forall|i: int| 0 <= i < actions.filter(p).len() implies
        !deletes_move_source(#[trigger] actions.filter(p)[i], moves) by {
        actions.lemma_filter_pred(p, i);
    }
}

} // verus!
