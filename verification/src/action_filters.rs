//! Pure filtering, completion and de-duplication of planned actions.

use vstd::prelude::*;
use crate::model::{actions_view, opt_str, strs, DriveFile, SyncAction, SyncActionType, SyncActionView};
use crate::path_recovery::BlockedPathChange;
use crate::planner::DbSnapshotEntry;
use crate::transfer::{state_of_code, TransferState, TransferTask};
use crate::path_map::PathMap;
use crate::paths::{parent_of, split_segments, strict_descendant, in_subtree, overlap};
use crate::retain::{lemma_select_is_filter, retain_by_mask};

verus! {

/// The action's relative path, as characters.
pub open spec fn path_of(a: SyncAction) -> Option<Seq<char>> {
    opt_str(a.relative_path)
}

/// Paths of the actions of type `ty` that have a path, in order.
pub open spec fn paths_of_type(actions: Seq<SyncAction>, ty: SyncActionType) -> Seq<Seq<char>>
    decreases actions.len(),
{
    if actions.len() == 0 {
        Seq::empty()
    } else {
        let prefix = paths_of_type(actions.drop_last(), ty);
        let a = actions.last();
        if a.action_type == ty && a.relative_path is Some {
            prefix.push(a.relative_path->0@)
        } else {
            prefix
        }
    }
}

/// `path` lies strictly below one of `roots`.
pub open spec fn below_any(path: Seq<char>, roots: Seq<Seq<char>>) -> bool {
    exists|k: int| 0 <= k < roots.len() && strict_descendant(path, #[trigger] roots[k])
}

/// One of `items` lies strictly below `path`.
pub open spec fn above_any(path: Seq<char>, items: Seq<Seq<char>>) -> bool {
    exists|k: int| 0 <= k < items.len() && strict_descendant(#[trigger] items[k], path)
}

/// Collect the paths of the actions of type `ty`.
fn collect_paths_of_type(actions: &Vec<SyncAction>, ty: SyncActionType) -> (r: Vec<String>)
    ensures
        strs(r) == paths_of_type(actions@, ty),
{
    let mut r: Vec<String> = Vec::new();
    let mut i: usize = 0;
    assert(strs(r) =~= Seq::<Seq<char>>::empty());
    assert(actions@.take(0) =~= Seq::<SyncAction>::empty());
    while i < actions.len()
        invariant
            i <= actions@.len(),
            strs(r) == paths_of_type(actions@.take(i as int), ty),
        decreases actions@.len() - i,
    {
        let a = &actions[i];
        assert(actions@.take(i as int + 1).drop_last() =~= actions@.take(i as int));
        assert(actions@.take(i as int + 1).last() == *a);
        if a.action_type == ty {
            if let Some(p) = &a.relative_path {
                let ghost before = strs(r);
                r.push(p.clone());
                assert(strs(r) =~= before.push(p@));
            }
        }
        i = i + 1;
    }
    assert(actions@.take(actions@.len() as int) =~= actions@);
    r
}

/// Whether `path` lies strictly below one of `roots`.
fn is_below_any(path: &str, roots: &Vec<String>) -> (r: bool)
    ensures
        r == below_any(path@, strs(*roots)),
{
    let mut k: usize = 0;
    while k < roots.len()
        invariant
            k <= roots@.len(),
            forall|j: int| 0 <= j < k ==> !strict_descendant(path@, #[trigger] strs(*roots)[j]),
        decreases roots@.len() - k,
    {
        if crate::paths::is_strict_descendant(path, roots[k].as_str()) {
            assert(strict_descendant(path@, strs(*roots)[k as int]));
            return true;
        }
        k = k + 1;
    }
    false
}

/// Whether one of `items` lies strictly below `path`.
fn is_above_any(path: &str, items: &Vec<String>) -> (r: bool)
    ensures
        r == above_any(path@, strs(*items)),
{
    let mut k: usize = 0;
    while k < items.len()
        invariant
            k <= items@.len(),
            forall|j: int| 0 <= j < k ==> !strict_descendant(#[trigger] strs(*items)[j], path@),
        decreases items@.len() - k,
    {
        if crate::paths::is_strict_descendant(items[k].as_str(), path) {
            assert(strict_descendant(strs(*items)[k as int], path@));
            return true;
        }
        k = k + 1;
    }
    false
}

/// `dedupe_local_descendants` keeps `a`: it is no local deletion below another
/// planned local deletion.
pub open spec fn keeps_local_delete(a: SyncAction, actions: Seq<SyncAction>) -> bool {
    a.action_type != SyncActionType::DeleteFromLocal || a.relative_path is None
        || !below_any(a.relative_path->0@, paths_of_type(actions, SyncActionType::DeleteFromLocal))
}

/// Drop local deletions that lie below another planned local deletion: the
/// directory deletion removes them already.
pub fn dedupe_local_descendants(actions: &mut Vec<SyncAction>)
    ensures
        final(actions)@ == old(actions)@.filter(|a: SyncAction| keeps_local_delete(a, old(actions)@)),
{
    let ghost orig = actions@;
    let deletes = collect_paths_of_type(actions, SyncActionType::DeleteFromLocal);
    let mut mask: Vec<bool> = Vec::new();
    let mut i: usize = 0;
    while i < actions.len()
        invariant
            orig == actions@,
            strs(deletes) == paths_of_type(orig, SyncActionType::DeleteFromLocal),
            i <= orig.len(),
            mask@.len() == i,
            forall|j: int| 0 <= j < i ==> mask@[j] == keeps_local_delete(orig[j], orig),
        decreases orig.len() - i,
    {
        let a = &actions[i];
        let keep = match a.action_type {
            SyncActionType::DeleteFromLocal => match &a.relative_path {
                Some(p) => !is_below_any(p.as_str(), &deletes),
                None => true,
            },
            _ => true,
        };
        mask.push(keep);
        i = i + 1;
    }
    proof {
        lemma_select_is_filter(orig, mask@, |a: SyncAction| keeps_local_delete(a, orig));
    }
    retain_by_mask(actions, &mask);
}

/// `preserve_dirs_with_pending_backups` keeps `a`: it is no local deletion of a
/// directory below which a file is being backed up.
pub open spec fn keeps_backup_parent(a: SyncAction, actions: Seq<SyncAction>) -> bool {
    a.action_type != SyncActionType::DeleteFromLocal || a.relative_path is None
        || !above_any(a.relative_path->0@,
            paths_of_type(actions, SyncActionType::BackupBeforeCloudDelete))
}

/// Keep local directories that hold a file to be backed up before a cloud
/// deletion: drop the local deletion of any such directory.
pub fn preserve_dirs_with_pending_backups(actions: &mut Vec<SyncAction>)
    ensures
        final(actions)@ == old(actions)@.filter(|a: SyncAction| keeps_backup_parent(a, old(actions)@)),
{
    let ghost orig = actions@;
    let backups = collect_paths_of_type(actions, SyncActionType::BackupBeforeCloudDelete);
    let mut mask: Vec<bool> = Vec::new();
    let mut i: usize = 0;
    while i < actions.len()
        invariant
            orig == actions@,
            strs(backups) == paths_of_type(orig, SyncActionType::BackupBeforeCloudDelete),
            i <= orig.len(),
            mask@.len() == i,
            forall|j: int| 0 <= j < i ==> mask@[j] == keeps_backup_parent(orig[j], orig),
        decreases orig.len() - i,
    {
        let a = &actions[i];
        let keep = match a.action_type {
            SyncActionType::DeleteFromLocal => match &a.relative_path {
                Some(p) => !is_above_any(p.as_str(), &backups),
                None => true,
            },
            _ => true,
        };
        mask.push(keep);
        i = i + 1;
    }
    proof {
        lemma_select_is_filter(orig, mask@, |a: SyncAction| keeps_backup_parent(a, orig));
    }
    retain_by_mask(actions, &mask);
}


/// Paths of the cloud deletions whose target is a folder of the cloud tree.
pub open spec fn folder_delete_paths(actions: Seq<SyncAction>, cloud: PathMap<DriveFile>) -> Seq<Seq<char>>
    decreases actions.len(),
{
    if actions.len() == 0 {
        Seq::empty()
    } else {
        let prefix = folder_delete_paths(actions.drop_last(), cloud);
        let a = actions.last();
        if a.action_type == SyncActionType::DeleteFromCloud && a.relative_path is Some
            && cloud.as_map().contains_key(a.relative_path->0@)
            && cloud.as_map()[a.relative_path->0@].is_folder() {
            prefix.push(a.relative_path->0@)
        } else {
            prefix
        }
    }
}

/// `dedupe_directory_deletes` keeps `a`: it is no cloud deletion below an
/// explicitly planned cloud folder deletion.
pub open spec fn keeps_cloud_delete(a: SyncAction, actions: Seq<SyncAction>, cloud: PathMap<DriveFile>) -> bool {
    a.action_type != SyncActionType::DeleteFromCloud || a.relative_path is None
        || !below_any(a.relative_path->0@, folder_delete_paths(actions, cloud))
}

/// Drop cloud deletions below an explicitly planned deletion of a cloud folder.
/// This only removes duplicates; it never widens a deletion.
pub fn dedupe_directory_deletes(actions: &mut Vec<SyncAction>, cloud_tree: &PathMap<DriveFile>)
    requires
        cloud_tree.wf(),
    ensures
        final(actions)@ == old(actions)@.filter(
            |a: SyncAction| keeps_cloud_delete(a, old(actions)@, *cloud_tree)),
{
    let ghost orig = actions@;
    let mut dirs: Vec<String> = Vec::new();
    let mut i: usize = 0;
    assert(strs(dirs) =~= Seq::<Seq<char>>::empty());
    assert(orig.take(0) =~= Seq::<SyncAction>::empty());
    while i < actions.len()
        invariant
            orig == actions@,
            cloud_tree.wf(),
            i <= orig.len(),
            strs(dirs) == folder_delete_paths(orig.take(i as int), *cloud_tree),
        decreases orig.len() - i,
    {
        let a = &actions[i];
        assert(orig.take(i as int + 1).drop_last() =~= orig.take(i as int));
        assert(orig.take(i as int + 1).last() == *a);
        if a.action_type == SyncActionType::DeleteFromCloud {
            if let Some(p) = &a.relative_path {
                if let Some(entry) = cloud_tree.get(p.as_str()) {
                    if entry.is_folder() {
                        let ghost before = strs(dirs);
                        dirs.push(p.clone());
                        assert(strs(dirs) =~= before.push(p@));
                    }
                }
            }
        }
        i = i + 1;
    }
    assert(orig.take(orig.len() as int) =~= orig);
    let mut mask: Vec<bool> = Vec::new();
    let mut i: usize = 0;
    while i < actions.len()
        invariant
            orig == actions@,
            strs(dirs) == folder_delete_paths(orig, *cloud_tree),
            i <= orig.len(),
            mask@.len() == i,
            forall|j: int| 0 <= j < i ==> mask@[j] == keeps_cloud_delete(orig[j], orig, *cloud_tree),
        decreases orig.len() - i,
    {
        let a = &actions[i];
        let keep = match a.action_type {
            SyncActionType::DeleteFromCloud => match &a.relative_path {
                Some(p) => !is_below_any(p.as_str(), &dirs),
                None => true,
            },
            _ => true,
        };
        mask.push(keep);
        i = i + 1;
    }
    proof {
        lemma_select_is_filter(orig, mask@, |a: SyncAction| keeps_cloud_delete(a, orig, *cloud_tree));
    }
    retain_by_mask(actions, &mask);
}

/// `filter_anti_oscillation` keeps `a`: its path was not deleted remotely a
/// moment ago, or it is a cloud deletion that confirms that deletion.
pub open spec fn keeps_against_oscillation(a: SyncAction, recently_deleted: Map<Seq<char>, i64>) -> bool {
    a.relative_path is None || !recently_deleted.contains_key(a.relative_path->0@)
        || a.action_type == SyncActionType::DeleteFromCloud
}

/// Drop actions that would swing back a path deleted remotely a moment ago;
/// keep cloud deletions, which confirm it.
pub fn filter_anti_oscillation(actions: &mut Vec<SyncAction>, rdp: &PathMap<i64>)
    requires
        rdp.wf(),
    ensures
        final(actions)@ == old(actions)@.filter(
            |a: SyncAction| keeps_against_oscillation(a, rdp.as_map())),
{
    let ghost orig = actions@;
    let mut mask: Vec<bool> = Vec::new();
    let mut i: usize = 0;
    while i < actions.len()
        invariant
            orig == actions@,
            rdp.wf(),
            i <= orig.len(),
            mask@.len() == i,
            forall|j: int| 0 <= j < i ==> mask@[j] == keeps_against_oscillation(orig[j], rdp.as_map()),
        decreases orig.len() - i,
    {
        let a = &actions[i];
        let keep = match &a.relative_path {
            None => true,
            Some(p) => !rdp.contains_key(p.as_str()) || match a.action_type {
                SyncActionType::DeleteFromCloud => true,
                _ => false,
            },
        };
        mask.push(keep);
        i = i + 1;
    }
    proof {
        lemma_select_is_filter(orig, mask@, |a: SyncAction| keeps_against_oscillation(a, rdp.as_map()));
    }
    retain_by_mask(actions, &mask);
}

/// A path matches the skip rules: one of its segments equals a pattern.
pub open spec fn skipped(path: Seq<char>, patterns: Seq<Seq<char>>) -> bool {
    exists|k: int| 0 <= k < patterns.len() && split_segments(path).contains(#[trigger] patterns[k])
}

/// Whether a relative path matches the skip rules.
pub fn should_skip_relative_path(path: &str, patterns: &Vec<String>) -> (r: bool)
    ensures
        r == skipped(path@, strs(*patterns)),
{
    let mut k: usize = 0;
    while k < patterns.len()
        invariant
            k <= patterns@.len(),
            forall|j: int| 0 <= j < k ==> !split_segments(path@).contains(#[trigger] strs(*patterns)[j]),
        decreases patterns@.len() - k,
    {
        if crate::paths::path_has_segment(path, patterns[k].as_str()) {
            assert(split_segments(path@).contains(strs(*patterns)[k as int]));
            return true;
        }
        k = k + 1;
    }
    false
}

/// `filter_skipped_paths` keeps `a`: its path does not match the skip rules.
pub open spec fn keeps_unskipped(a: SyncAction, patterns: Seq<Seq<char>>) -> bool {
    !(a.relative_path is Some && skipped(a.relative_path->0@, patterns))
}

/// Drop actions whose path matches the skip rules, so that planning ignores
/// what the local scan ignores.
pub fn filter_skipped_paths(actions: &mut Vec<SyncAction>, skip_patterns: &Vec<String>)
    ensures
        final(actions)@ == old(actions)@.filter(
            |a: SyncAction| keeps_unskipped(a, strs(*skip_patterns))),
{
    let ghost orig = actions@;
    let mut mask: Vec<bool> = Vec::new();
    let mut i: usize = 0;
    while i < actions.len()
        invariant
            orig == actions@,
            i <= orig.len(),
            mask@.len() == i,
            forall|j: int| 0 <= j < i ==> mask@[j] == keeps_unskipped(orig[j], strs(*skip_patterns)),
        decreases orig.len() - i,
    {
        let a = &actions[i];
        let keep = match &a.relative_path {
            Some(p) => !should_skip_relative_path(p.as_str(), skip_patterns),
            None => true,
        };
        mask.push(keep);
        i = i + 1;
    }
    proof {
        lemma_select_is_filter(orig, mask@, |a: SyncAction| keeps_unskipped(a, strs(*skip_patterns)));
    }
    retain_by_mask(actions, &mask);
}

/// A path or fileId meets an unsettled path change: the fileId is the
/// change's, or the path overlaps its old or new path.
pub open spec fn blocked_identity(
    path: Option<Seq<char>>,
    file_id: Option<Seq<char>>,
    blocked: Seq<BlockedPathChange>,
) -> bool {
    ||| (file_id matches Some(f) && exists|k: int| 0 <= k < blocked.len() && (#[trigger] blocked[k]).file_id@ == f)
    ||| (path matches Some(p) && exists|k: int| 0 <= k < blocked.len()
        && (overlap(p, (#[trigger] blocked[k]).old_path@) || overlap(p, blocked[k].new_path@)))
}

/// Whether a path or fileId meets an unsettled path change.
pub fn is_blocked_path_identity(
    path: Option<&str>,
    file_id: Option<&str>,
    blocked_changes: &Vec<BlockedPathChange>,
) -> (r: bool)
    ensures
        r == blocked_identity(match path { Some(p) => Some(p@), None => None },
            match file_id { Some(f) => Some(f@), None => None }, blocked_changes@),
{
    let file_blocked = match file_id {
        Some(f) => blocks_file_id(blocked_changes, f),
        None => false,
    };
    let path_blocked = match path {
        Some(p) => blocks_path(blocked_changes, p),
        None => false,
    };
    file_blocked || path_blocked
}

/// Whether a change concerns fileId `f`.
fn blocks_file_id(blocked: &Vec<BlockedPathChange>, f: &str) -> (r: bool)
    ensures
        r == exists|k: int| 0 <= k < blocked@.len() && (#[trigger] blocked@[k]).file_id@ == f@,
{
    let mut k: usize = 0;
    while k < blocked.len()
        invariant
            k <= blocked@.len(),
            forall|j: int| 0 <= j < k ==> (#[trigger] blocked@[j]).file_id@ != f@,
        decreases blocked@.len() - k,
    {
        if crate::paths::str_equal(blocked[k].file_id.as_str(), f) {
            return true;
        }
        k = k + 1;
    }
    false
}

/// Whether path `p` overlaps the old or new path of a change.
fn blocks_path(blocked: &Vec<BlockedPathChange>, p: &str) -> (r: bool)
    ensures
        r == exists|k: int| 0 <= k < blocked@.len()
            && (overlap(p@, (#[trigger] blocked@[k]).old_path@) || overlap(p@, blocked@[k].new_path@)),
{
    let mut k: usize = 0;
    while k < blocked.len()
        invariant
            k <= blocked@.len(),
            forall|j: int| 0 <= j < k ==> !overlap(p@, (#[trigger] blocked@[j]).old_path@)
                && !overlap(p@, blocked@[j].new_path@),
        decreases blocked@.len() - k,
    {
        let c = &blocked[k];
        if crate::paths::paths_overlap(p, c.old_path.as_str())
            || crate::paths::paths_overlap(p, c.new_path.as_str()) {
            return true;
        }
        k = k + 1;
    }
    false
}


/// Paths of the folder creations whose identity meets an unsettled path change.
pub open spec fn blocked_roots(actions: Seq<SyncAction>, blocked: Seq<BlockedPathChange>) -> Seq<Seq<char>>
    decreases actions.len(),
{
    if actions.len() == 0 {
        Seq::empty()
    } else {
        let prefix = blocked_roots(actions.drop_last(), blocked);
        let a = actions.last();
        if a.action_type == SyncActionType::CreateFolder && a.relative_path is Some
            && blocked_identity(path_of(a), opt_str(a.file_id), blocked) {
            prefix.push(a.relative_path->0@)
        } else {
            prefix
        }
    }
}

/// `path` equals or lies below one of `roots`.
pub open spec fn within_any(path: Seq<char>, roots: Seq<Seq<char>>) -> bool {
    exists|k: int| 0 <= k < roots.len() && in_subtree(path, #[trigger] roots[k])
}

/// `filter_blocked_path_changes` keeps `a`: neither it nor a blocked folder
/// creation above it meets an unsettled path change.
pub open spec fn keeps_unblocked(a: SyncAction, actions: Seq<SyncAction>, blocked: Seq<BlockedPathChange>) -> bool {
    &&& !blocked_identity(path_of(a), opt_str(a.file_id), blocked)
    &&& !(a.relative_path is Some && within_any(a.relative_path->0@, blocked_roots(actions, blocked)))
}

/// Whether `path` equals or lies below one of `roots`.
fn is_within_any(path: &str, roots: &Vec<String>) -> (r: bool)
    ensures
        r == within_any(path@, strs(*roots)),
{
    let mut k: usize = 0;
    while k < roots.len()
        invariant
            k <= roots@.len(),
            forall|j: int| 0 <= j < k ==> !in_subtree(path@, #[trigger] strs(*roots)[j]),
        decreases roots@.len() - k,
    {
        if crate::paths::is_in_subtree(path, roots[k].as_str()) {
            assert(in_subtree(path@, strs(*roots)[k as int]));
            return true;
        }
        k = k + 1;
    }
    false
}

/// Optional `String` as an optional `&str`.
fn as_opt_str(o: &Option<String>) -> (r: Option<&str>)
    ensures
        match r { Some(s) => Some(s@), None => None::<Seq<char>> } == opt_str(*o),
{
    match o {
        Some(s) => Some(s.as_str()),
        None => None,
    }
}

/// Isolate actions that meet an unsettled path change, directly or through a
/// blocked folder creation above them; all other actions go on.
pub fn filter_blocked_path_changes(actions: &mut Vec<SyncAction>, blocked_changes: &Vec<BlockedPathChange>)
    ensures
        final(actions)@ == old(actions)@.filter(
            |a: SyncAction| keeps_unblocked(a, old(actions)@, blocked_changes@)),
{
    let ghost orig = actions@;
    let ghost b = blocked_changes@;
    let mut roots: Vec<String> = Vec::new();
    let mut i: usize = 0;
    assert(strs(roots) =~= Seq::<Seq<char>>::empty());
    assert(orig.take(0) =~= Seq::<SyncAction>::empty());
    while i < actions.len()
        invariant
            orig == actions@,
            b == blocked_changes@,
            i <= orig.len(),
            strs(roots) == blocked_roots(orig.take(i as int), b),
        decreases orig.len() - i,
    {
        let a = &actions[i];
        assert(orig.take(i as int + 1).drop_last() =~= orig.take(i as int));
        assert(orig.take(i as int + 1).last() == *a);
        if a.action_type == SyncActionType::CreateFolder {
            if let Some(p) = &a.relative_path {
                if is_blocked_path_identity(Some(p.as_str()), as_opt_str(&a.file_id), blocked_changes) {
                    let ghost before = strs(roots);
                    roots.push(p.clone());
                    assert(strs(roots) =~= before.push(p@));
                }
            }
        }
        i = i + 1;
    }
    assert(orig.take(orig.len() as int) =~= orig);
    let mut mask: Vec<bool> = Vec::new();
    let mut i: usize = 0;
    while i < actions.len()
        invariant
            orig == actions@,
            b == blocked_changes@,
            strs(roots) == blocked_roots(orig, b),
            i <= orig.len(),
            mask@.len() == i,
            forall|j: int| 0 <= j < i ==> mask@[j] == keeps_unblocked(orig[j], orig, b),
        decreases orig.len() - i,
    {
        let a = &actions[i];
        let path = as_opt_str(&a.relative_path);
        let direct = is_blocked_path_identity(path, as_opt_str(&a.file_id), blocked_changes);
        let below = match path {
            Some(p) => is_within_any(p, &roots),
            None => false,
        };
        mask.push(!direct && !below);
        i = i + 1;
    }
    proof {
        lemma_select_is_filter(orig, mask@, |a: SyncAction| keeps_unblocked(a, orig, b));
    }
    retain_by_mask(actions, &mask);
}

/// Unicode `White_Space` characters, which `str::trim` removes.
pub open spec fn white_space(c: char) -> bool {
    ('\u{9}' <= c && c <= '\u{d}') || c == ' ' || c == '\u{85}' || c == '\u{a0}'
        || c == '\u{1680}' || ('\u{2000}' <= c && c <= '\u{200a}') || c == '\u{2028}'
        || c == '\u{2029}' || c == '\u{202f}' || c == '\u{205f}' || c == '\u{3000}'
}

/// A string with a character other than white space (what survives `trim`).
pub open spec fn not_blank(s: Seq<char>) -> bool {
    exists|i: int| 0 <= i < s.len() && !white_space(#[trigger] s[i])
}

/// Whether `c` is Unicode white space.
pub fn is_white_space(c: char) -> (b: bool)
    ensures
        b == white_space(c),
{
    ('\u{9}' <= c && c <= '\u{d}') || c == ' ' || c == '\u{85}' || c == '\u{a0}'
        || c == '\u{1680}' || ('\u{2000}' <= c && c <= '\u{200a}') || c == '\u{2028}'
        || c == '\u{2029}' || c == '\u{202f}' || c == '\u{205f}' || c == '\u{3000}'
}

/// Whether `s` holds a character other than white space.
pub fn is_not_blank(s: &str) -> (b: bool)
    ensures
        b == not_blank(s@),
{
    let n = s.unicode_len();
    let mut i: usize = 0;
    while i < n
        invariant
            n == s@.len(),
            i <= n,
            forall|j: int| 0 <= j < i ==> white_space(#[trigger] s@[j]),
        decreases n - i,
    {
        if !is_white_space(s.get_char(i)) {
            return true;
        }
        i = i + 1;
    }
    false
}

/// A task still holds its identity and paths: it is queued, running, waiting
/// or verifying, or needs a restart after the cloud already gave a result fileId.
pub open spec fn active_task(t: TransferTask) -> bool {
    match state_of_code(t.state) {
        Some(s) => s == TransferState::Pending || s == TransferState::Running
            || s == TransferState::WaitingForNetwork || s == TransferState::BackingOff
            || s == TransferState::VerifyingRemote
            || (s == TransferState::RestartRequired && (t.remote_result_file_id matches Some(f)
                && not_blank(f@))),
        None => false,
    }
}

/// Whether a task still holds its identity and paths.
pub fn is_active_task(t: &TransferTask) -> (b: bool)
    ensures
        b == active_task(*t),
{
    match t.state_kind() {
        Some(s) => match s {
            TransferState::Pending | TransferState::Running | TransferState::WaitingForNetwork
            | TransferState::BackingOff | TransferState::VerifyingRemote => true,
            TransferState::RestartRequired => match &t.remote_result_file_id {
                Some(f) => is_not_blank(f.as_str()),
                None => false,
            },
            _ => false,
        },
        None => false,
    }
}

/// Database path of the last baseline (in key order) with fileId `file_id`
/// among the first `n` entries.
pub open spec fn baseline_path_of(db: PathMap<DbSnapshotEntry>, file_id: Seq<char>, n: int) -> Option<Seq<char>>
    decreases n,
{
    if n <= 0 {
        None
    } else if db.value_at(n - 1).file_id == file_id {
        Some(db.key_at(n - 1))
    } else {
        baseline_path_of(db, file_id, n - 1)
    }
}

/// Database path of the last baseline with fileId `file_id`.
pub open spec fn source_path(db: PathMap<DbSnapshotEntry>, file_id: Seq<char>) -> Option<Seq<char>> {
    baseline_path_of(db, file_id, db.size() as int)
}

/// Database path recorded for a fileId.
fn find_source_path<'a>(db: &'a PathMap<DbSnapshotEntry>, file_id: &str) -> (r: Option<&'a String>)
    ensures
        match r { Some(s) => Some(s@), None => None::<Seq<char>> } == source_path(*db, file_id@),
{
    let mut n = db.len();
    while n > 0
        invariant
            n <= db.size(),
            source_path(*db, file_id@) == baseline_path_of(*db, file_id@, n as int),
        decreases n,
    {
        if crate::paths::str_equal(db.value(n - 1).file_id.as_str(), file_id) {
            return Some(db.key(n - 1));
        }
        n = n - 1;
    }
    None
}

/// Action `a` meets active task `t`: same fileId, or its path (or the database
/// path of its fileId) overlaps the task's path.
pub open spec fn meets_task(a: SyncAction, t: TransferTask, db: PathMap<DbSnapshotEntry>) -> bool {
    ||| (a.file_id is Some && opt_str(t.file_id) == opt_str(a.file_id))
    ||| (t.relative_path matches Some(tp) && (
            (a.relative_path matches Some(p) && overlap(p@, tp@))
            || (a.file_id matches Some(f) && source_path(db, f@) matches Some(sp) && overlap(sp, tp@))))
}

/// `filter_active_transfer_actions` keeps `a`: it meets no active task.
pub open spec fn keeps_clear_of_tasks(a: SyncAction, tasks: Seq<TransferTask>, db: PathMap<DbSnapshotEntry>) -> bool {
    !exists|k: int| 0 <= k < tasks.len() && active_task(#[trigger] tasks[k]) && meets_task(a, tasks[k], db)
}

/// Whether action `a` meets task `t`.
fn action_meets_task(a: &SyncAction, t: &TransferTask, db: &PathMap<DbSnapshotEntry>) -> (b: bool)
    ensures
        b == meets_task(*a, *t, *db),
{
    let same_file_id = match (&a.file_id, &t.file_id) {
        (Some(af), Some(tf)) => crate::paths::str_equal(af.as_str(), tf.as_str()),
        _ => false,
    };
    if same_file_id {
        return true;
    }
    match &t.relative_path {
        None => false,
        Some(tp) => {
            let by_path = match &a.relative_path {
                Some(p) => crate::paths::paths_overlap(p.as_str(), tp.as_str()),
                None => false,
            };
            if by_path {
                return true;
            }
            match &a.file_id {
                Some(f) => match find_source_path(db, f.as_str()) {
                    Some(sp) => crate::paths::paths_overlap(sp.as_str(), tp.as_str()),
                    None => false,
                },
                None => false,
            }
        },
    }
}

/// Whether action `a` meets an active task.
fn meets_active_task(a: &SyncAction, tasks: &Vec<TransferTask>, db: &PathMap<DbSnapshotEntry>) -> (b: bool)
    ensures
        b == !keeps_clear_of_tasks(*a, tasks@, *db),
{
    let mut k: usize = 0;
    while k < tasks.len()
        invariant
            k <= tasks@.len(),
            forall|j: int| 0 <= j < k ==> !(active_task(#[trigger] tasks@[j]) && meets_task(*a, tasks@[j], *db)),
        decreases tasks@.len() - k,
    {
        if is_active_task(&tasks[k]) && action_meets_task(a, &tasks[k], db) {
            return true;
        }
        k = k + 1;
    }
    false
}

/// Isolate actions whose fileId or paths are still held by an active durable
/// task, so that no structural action overtakes it remotely.
pub fn filter_active_transfer_actions(
    actions: &mut Vec<SyncAction>,
    db: &PathMap<DbSnapshotEntry>,
    tasks: &Vec<TransferTask>,
)
    ensures
        final(actions)@ == old(actions)@.filter(
            |a: SyncAction| keeps_clear_of_tasks(a, tasks@, *db)),
{
    let ghost orig = actions@;
    let ghost ts = tasks@;
    let mut mask: Vec<bool> = Vec::new();
    let mut i: usize = 0;
    while i < actions.len()
        invariant
            orig == actions@,
            ts == tasks@,
            i <= orig.len(),
            mask@.len() == i,
            forall|j: int| 0 <= j < i ==> mask@[j] == keeps_clear_of_tasks(orig[j], ts, *db),
        decreases orig.len() - i,
    {
        let blocked = meets_active_task(&actions[i], tasks, db);
        mask.push(!blocked);
        i = i + 1;
    }
    proof {
        lemma_select_is_filter(orig, mask@, |a: SyncAction| keeps_clear_of_tasks(a, ts, *db));
    }
    retain_by_mask(actions, &mask);
}


/// An action view with its parent folder id filled in from the path index,
/// when it has none, has a path with a `/`, and the index knows that parent.
pub open spec fn filled_parent(a: SyncActionView, path_to_id: Map<Seq<char>, Seq<char>>) -> SyncActionView {
    if a.parent_file_id is None && a.relative_path is Some
        && parent_of(a.relative_path->0) is Some
        && path_to_id.contains_key(parent_of(a.relative_path->0)->0) {
        SyncActionView {
            parent_file_id: Some(path_to_id[parent_of(a.relative_path->0)->0]),
            ..a
        }
    } else {
        a
    }
}

/// Give nested actions without a parent folder id the cloud id of their
/// parent path, where the path index knows it.
pub fn fill_parent_file_ids(actions: &mut Vec<SyncAction>, p2i: &PathMap<String>)
    requires
        p2i.wf(),
    ensures
        final(actions)@.len() == old(actions)@.len(),
        forall|i: int| 0 <= i < old(actions)@.len() ==>
            #[trigger] final(actions)@[i]@ == filled_parent(old(actions)@[i]@, p2i.as_map()),
{
    let ghost orig = actions@;
    let n = actions.len();
    let mut rest: Vec<SyncAction> = Vec::new();
    std::mem::swap(&mut rest, actions);
    let mut done: Vec<SyncAction> = Vec::new();
    let mut i: usize = 0;
    assert(orig.subrange(0, n as int) =~= orig);
    while i < n
        invariant
            n == orig.len(),
            p2i.wf(),
            i <= n,
            rest@ == orig.subrange(i as int, n as int),
            done@.len() == i,
            forall|j: int| 0 <= j < i ==> #[trigger] done@[j]@ == filled_parent(orig[j]@, p2i.as_map()),
        decreases n - i,
    {
        let mut a = rest.remove(0);
        assert(rest@ =~= orig.subrange(i as int + 1, n as int));
        assert(a == orig[i as int]);
        if a.parent_file_id.is_none() {
            if let Some(rel) = &a.relative_path {
                if let Some(parent) = crate::paths::parent_path(rel.as_str()) {
                    if let Some(pid) = p2i.get(parent.as_str()) {
                        a.parent_file_id = Some(pid.clone());
                    }
                }
            }
        }
        done.push(a);
        i = i + 1;
    }
    *actions = done;
}

} // verus!
