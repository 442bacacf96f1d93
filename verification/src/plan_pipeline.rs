//! The planning pipeline of a sync cycle: the planner's decisions, then the
//! filters in their fixed order. Rename detection (which reads the disk)
//! runs between [`plan_unskipped`] and [`filter_plan`] on a trusted tree;
//! the local check of cloud deletions (which reads the disk too) feeds
//! [`finish_plan`].

use vstd::prelude::*;
use crate::action_filters::{
    dedupe_directory_deletes, dedupe_local_descendants, fill_parent_file_ids, filled_parent,
    filter_active_transfer_actions, filter_anti_oscillation, filter_blocked_path_changes, filter_skipped_paths,
    keeps_against_oscillation, keeps_backup_parent, keeps_clear_of_tasks, keeps_cloud_delete, keeps_local_delete,
    keeps_unblocked, keeps_unskipped, path_of, preserve_dirs_with_pending_backups,
};
use crate::guards::{guard_cloud_delete, guarded_delete, LocalPresence};
use crate::model::{actions_view, strs, DriveFile, SyncAction, SyncActionType};
use crate::path_map::PathMap;
use crate::path_recovery::BlockedPathChange;
use crate::paths::depth;
use crate::planner::{all_paths, plan_over, SyncPlanner, SyncSnapshot};
use crate::rescue::{add_rescue_folder_recreations, planned_at, rescue_candidate, rescue_entry};
use crate::transfer::TransferTask;

verus! {

/// Plan the snapshot and leave out the paths the skip patterns name.
pub fn plan_unskipped(snapshot: &SyncSnapshot, skip_patterns: &Vec<String>) -> (r: Vec<SyncAction>)
    requires
        snapshot.wf(),
    ensures
        exists|p: Seq<SyncAction>| #[trigger] actions_view(p) == plan_over(all_paths(*snapshot), *snapshot)
            && r@ == p.filter(|a: SyncAction| keeps_unskipped(a, strs(*skip_patterns))),
{
    let mut actions = SyncPlanner.plan(snapshot);
    let ghost planned = actions@;
    filter_skipped_paths(&mut actions, skip_patterns);
    assert(actions_view(planned) == plan_over(all_paths(*snapshot), *snapshot));
    actions
}

/// `b` is `a` with each action's parent folder id filled from the path index.
pub open spec fn fill_stage(a: Seq<SyncAction>, b: Seq<SyncAction>, path_to_id: Map<Seq<char>, Seq<char>>) -> bool {
    &&& b.len() == a.len()
    &&& forall|i: int| 0 <= i < a.len() ==> #[trigger] b[i]@ == filled_parent(a[i]@, path_to_id)
}

/// `b` is `a` followed by the folder recreations that rescue content: each
/// candidate once, shallower first.
pub open spec fn rescue_stage(a: Seq<SyncAction>, b: Seq<SyncAction>, snapshot: SyncSnapshot, recently_deleted: Map<Seq<char>, i64>) -> bool {
    &&& b.len() >= a.len()
    &&& b.take(a.len() as int) == a
    &&& forall|i: int| a.len() <= i < b.len() ==> rescue_entry(#[trigger] b[i], a, snapshot, recently_deleted)
    &&& forall|f: Seq<char>| #[trigger] rescue_candidate(f, a, snapshot, recently_deleted) ==> planned_at(b.skip(a.len() as int), f)
    &&& forall|i: int, j: int| a.len() <= i < j < b.len() ==> path_of(#[trigger] b[i]) != path_of(#[trigger] b[j])
        && depth(b[i].relative_path->0@) <= depth(b[j].relative_path->0@)
}

/// The actions that remain clear of live transfers and recent deletions.
pub open spec fn unhindered(
    actions: Seq<SyncAction>,
    snapshot: SyncSnapshot,
    tasks: Seq<TransferTask>,
    recently_deleted: Map<Seq<char>, i64>,
) -> Seq<SyncAction> {
    actions.filter(|a: SyncAction| keeps_clear_of_tasks(a, tasks, snapshot.db))
        .filter(|a: SyncAction| keeps_against_oscillation(a, recently_deleted))
}

/// `new` is `old` after the filters of a plan, in order: live transfers,
/// recent deletions, parent ids, rescue folders, unsettled path changes.
pub open spec fn filtered_plan(
    old: Seq<SyncAction>,
    new: Seq<SyncAction>,
    snapshot: SyncSnapshot,
    tasks: Seq<TransferTask>,
    recently_deleted: Map<Seq<char>, i64>,
    path_to_id: Map<Seq<char>, Seq<char>>,
    blocked: Seq<BlockedPathChange>,
) -> bool {
    exists|filled: Seq<SyncAction>, rescued: Seq<SyncAction>|
        #![trigger fill_stage(unhindered(old, snapshot, tasks, recently_deleted), filled, path_to_id), rescue_stage(filled, rescued, snapshot, recently_deleted)]
        fill_stage(unhindered(old, snapshot, tasks, recently_deleted), filled, path_to_id)
            && rescue_stage(filled, rescued, snapshot, recently_deleted)
            && new == rescued.filter(|a: SyncAction| keeps_unblocked(a, rescued, blocked))
}

/// Apply the filters of a plan, in order: drop actions on paths held by live
/// transfers and on paths deleted a moment ago, fill parent folder ids, add
/// the folders that rescue content, and drop actions on unsettled path
/// changes.
pub fn filter_plan(
    actions: &mut Vec<SyncAction>,
    snapshot: &SyncSnapshot,
    tasks: &Vec<TransferTask>,
    recently_deleted: &PathMap<i64>,
    path_to_id: &PathMap<String>,
    blocked: &Vec<BlockedPathChange>,
)
    requires
        snapshot.wf(),
        recently_deleted.wf(),
        path_to_id.wf(),
    ensures
        filtered_plan(old(actions)@, final(actions)@, *snapshot, tasks@, recently_deleted.as_map(),
            path_to_id.as_map(), blocked@),
{
    let ghost orig = actions@;
    filter_active_transfer_actions(actions, &snapshot.db, tasks);
    filter_anti_oscillation(actions, recently_deleted);
    let ghost before_fill = actions@;
    assert(before_fill == unhindered(orig, *snapshot, tasks@, recently_deleted.as_map()));
    fill_parent_file_ids(actions, path_to_id);
    let ghost filled = actions@;
    assert(fill_stage(before_fill, filled, path_to_id.as_map()));
    add_rescue_folder_recreations(actions, snapshot, recently_deleted);
    let ghost rescued = actions@;
    assert(rescue_stage(filled, rescued, *snapshot, recently_deleted.as_map()));
    filter_blocked_path_changes(actions, blocked);
}

/// `b` is `a` after the local check of each cloud deletion against what the
/// disk showed at its path (`presences`, one per action).
pub open spec fn guard_stage(a: Seq<SyncAction>, b: Seq<SyncAction>, presences: Seq<LocalPresence>) -> bool {
    &&& b.len() == a.len()
    &&& forall|i: int| 0 <= i < a.len() ==> #[trigger] b[i]@ == if a[i].action_type == SyncActionType::DeleteFromCloud {
        guarded_delete(a[i]@, presences[i])
    } else {
        a[i]@
    }
}

/// The plan after the de-duplication of folder deletions: cloud deletions
/// only above one another, local deletions likewise, and folders kept where
/// a child still needs a backup.
pub open spec fn deduped(g: Seq<SyncAction>, cloud: PathMap<DriveFile>) -> Seq<SyncAction> {
    let c = g.filter(|a: SyncAction| keeps_cloud_delete(a, g, cloud));
    let d = c.filter(|a: SyncAction| keeps_local_delete(a, c));
    d.filter(|a: SyncAction| keeps_backup_parent(a, d))
}

/// `new` is `old` after the local check of its cloud deletions and the
/// de-duplication of folder deletions.
pub open spec fn finished_plan(old: Seq<SyncAction>, new: Seq<SyncAction>, presences: Seq<LocalPresence>, cloud: PathMap<DriveFile>) -> bool {
    exists|g: Seq<SyncAction>| #[trigger] guard_stage(old, g, presences) && new == deduped(g, cloud)
}

/// Check each cloud deletion against what the disk showed at its local path
/// (`presences` holds one reading per action; only those of cloud deletions
/// are read), then keep only the topmost folder deletions and the folders
/// that a pending backup needs.
pub fn finish_plan(actions: &mut Vec<SyncAction>, presences: Vec<LocalPresence>, cloud: &PathMap<DriveFile>)
    requires
        presences@.len() == old(actions)@.len(),
        cloud.wf(),
    ensures
        finished_plan(old(actions)@, final(actions)@, presences@, *cloud),
{
    let ghost orig = actions@;
    let ghost pres = presences@;
    let n = actions.len();
    let mut rest: Vec<SyncAction> = Vec::new();
    std::mem::swap(&mut rest, actions);
    let mut readings = presences;
    let mut done: Vec<SyncAction> = Vec::new();
    let mut i: usize = 0;
    while i < n
        invariant
            n == orig.len(),
            n == pres.len(),
            i <= n,
            rest@ == orig.skip(i as int),
            readings@ == pres.skip(i as int),
            done@.len() == i,
            forall|j: int| 0 <= j < i ==> #[trigger] done@[j]@ == if orig[j].action_type == SyncActionType::DeleteFromCloud {
                guarded_delete(orig[j]@, pres[j])
            } else {
                orig[j]@
            },
        decreases n - i,
    {
        let mut a = rest.remove(0);
        let reading = readings.remove(0);
        assert(rest@ =~= orig.skip(i as int + 1));
        assert(readings@ =~= pres.skip(i as int + 1));
        if a.action_type == SyncActionType::DeleteFromCloud {
            guard_cloud_delete(&mut a, reading);
        }
        done.push(a);
        i = i + 1;
    }
    let ghost g = done@;
    assert(guard_stage(orig, g, pres));
    *actions = done;
    dedupe_directory_deletes(actions, cloud);
    dedupe_local_descendants(actions);
    preserve_dirs_with_pending_backups(actions);
}

} // verus!
