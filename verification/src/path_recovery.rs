//! Recovery of remote rename/move commands that were interrupted: once a
//! trusted cloud tree shows a fileId at another path, the local baseline
//! subtree is re-keyed to the new path.

use vstd::prelude::*;
use vstd::string::*;
use crate::error::AppError;
use crate::paths::{in_subtree, safe_relative, strict_descendant};
use crate::model::{clone_opt_string, opt_str, DriveFile, DriveFileView, SyncItem};
use crate::path_map::PathMap;
use crate::transfer::{state_of_code, TransferState, TransferTask};

verus! {

/// Counts of one recovery pass.
#[derive(Debug, Clone, Copy, PartialEq, Eq, Structural, Default)]
pub struct PathRecoverySummary {
    pub rekeyed_roots: usize,
    pub skipped_unmarked: usize,
}

/// A path change of a fileId that is not settled yet; actions that touch its
/// identity or either of its paths wait.
#[derive(Debug)]
pub struct BlockedPathChange {
    pub file_id: String,
    pub old_path: String,
    pub new_path: String,
}


/// `path` re-keyed from the subtree at `old_root` to `new_root`.
pub open spec fn rekeyed(path: Seq<char>, old_root: Seq<char>, new_root: Seq<char>) -> Seq<char> {
    if path == old_root {
        new_root
    } else {
        new_root + path.subrange(old_root.len() as int, path.len() as int)
    }
}

/// Move a path of the subtree at `old_root` to the same place under
/// `new_root`; a path outside that subtree is an error.
pub fn rekey_path(path: &str, old_root: &str, new_root: &str) -> (r: Result<String, AppError>)
    ensures
        r is Ok <==> in_subtree(path@, old_root@),
        r matches Ok(p) ==> p@ == rekeyed(path@, old_root@, new_root@),
        r matches Err(e) ==> (e matches AppError::Generic { message } && message@ == "路径不属于待重键子树："@ + path@),
{
    if crate::paths::str_equal(path, old_root) {
        return Ok(new_root.to_owned());
    }
    if crate::paths::is_strict_descendant(path, old_root) {
        let m = old_root.unicode_len();
        let n = path.unicode_len();
        let suffix = path.substring_char(m, n);
        return Ok(new_root.to_owned().concat(suffix));
    }
    Err(AppError::Generic { message: "路径不属于待重键子树：".to_owned().concat(path) })
}


/// Number of the first `n` cloud entries with fileId `id`.
pub open spec fn id_count(tree: PathMap<DriveFile>, id: Seq<char>, n: int) -> nat
    decreases n,
{
    if n <= 0 {
        0
    } else {
        id_count(tree, id, n - 1) + if tree.value_at(n - 1).id == id { 1nat } else { 0nat }
    }
}

/// Path of the last of the first `n` cloud entries with fileId `id`.
pub open spec fn id_path(tree: PathMap<DriveFile>, id: Seq<char>, n: int) -> Option<Seq<char>>
    decreases n,
{
    if n <= 0 {
        None
    } else if tree.value_at(n - 1).id == id {
        Some(tree.key_at(n - 1))
    } else {
        id_path(tree, id, n - 1)
    }
}

/// The cloud path of fileId `id` when exactly one cloud entry has that id; a
/// duplicated id makes the path identity ambiguous.
pub open spec fn unique_cloud_path(tree: PathMap<DriveFile>, id: Seq<char>) -> Option<Seq<char>> {
    if id_count(tree, id, tree.size() as int) == 1 {
        id_path(tree, id, tree.size() as int)
    } else {
        None
    }
}

/// The cloud path of a fileId, when exactly one cloud entry has it.
pub fn find_unique_cloud_path(tree: &PathMap<DriveFile>, file_id: &str) -> (r: Option<String>)
    ensures
        opt_str(r) == unique_cloud_path(*tree, file_id@),
{
    let n = tree.len();
    let mut count: usize = 0;
    let mut found: Option<String> = None;
    let mut i: usize = 0;
    while i < n
        invariant
            n == tree.size(),
            i <= n,
            count == id_count(*tree, file_id@, i as int),
            count <= i,
            opt_str(found) == id_path(*tree, file_id@, i as int),
        decreases n - i,
    {
        if crate::paths::str_equal(tree.value(i).id.as_str(), file_id) {
            count = count + 1;
            found = Some(tree.key(i).clone());
        }
        i = i + 1;
    }
    if count == 1 { found } else { None }
}

/// Number of baselines with fileId `id`.
pub open spec fn baseline_count(records: Seq<SyncItem>, id: Seq<char>) -> nat
    decreases records.len(),
{
    if records.len() == 0 {
        0
    } else {
        baseline_count(records.drop_last(), id) + if records.last().file_id@ == id { 1nat } else { 0nat }
    }
}

/// Kind of a local path on disk, without following links.
#[derive(Debug, Clone, Copy, PartialEq, Eq, Structural)]
pub enum EntryType {
    Directory,
    File,
    Symlink,
    Other,
}

/// What the disk shows at a path: its type and the fileId it is marked with.
#[derive(Debug)]
pub struct LocalObservation {
    pub entry_type: EntryType,
    pub owner: Option<String>,
}

/// The local entry has the baseline's type and is no link.
pub open spec fn type_matches(entry_type: EntryType, is_folder: bool) -> bool {
    if is_folder { entry_type == EntryType::Directory } else { entry_type == EntryType::File }
}

/// Baselines in the subtree at `root`, in order.
pub open spec fn subtree_of(records: Seq<SyncItem>, root: Seq<char>) -> Seq<SyncItem>
    decreases records.len(),
{
    if records.len() == 0 {
        Seq::empty()
    } else {
        let prefix = subtree_of(records.drop_last(), root);
        if in_subtree(records.last().local_path@, root) {
            prefix.push(records.last())
        } else {
            prefix
        }
    }
}

/// Every baseline of the moved subtree that the cloud locates uniquely sits
/// where the move puts it.
pub open spec fn subtree_consistent(sub: Seq<SyncItem>, tree: PathMap<DriveFile>, old_root: Seq<char>, new_root: Seq<char>) -> bool {
    forall|i: int| 0 <= i < sub.len() ==> (unique_cloud_path(tree, (#[trigger] sub[i]).file_id@) matches Some(p)
        ==> p == rekeyed(sub[i].local_path@, old_root, new_root))
}

/// No baseline outside the moved subtree lies in the target subtree.
pub open spec fn target_free(records: Seq<SyncItem>, old_root: Seq<char>, new_root: Seq<char>) -> bool {
    forall|i: int| 0 <= i < records.len() ==> !(!in_subtree((#[trigger] records[i]).local_path@, old_root)
        && in_subtree(records[i].local_path@, new_root))
}

/// A task that is not finished.
pub open spec fn unfinished(t: TransferTask) -> bool {
    match state_of_code(t.state) {
        Some(s) => s != TransferState::Completed && s != TransferState::Failed && s != TransferState::Canceled,
        None => false,
    }
}

/// No unfinished task concerns the fileId or either subtree.
pub open spec fn no_active_transfer(tasks: Seq<TransferTask>, file_id: Seq<char>, old_root: Seq<char>, new_root: Seq<char>) -> bool {
    forall|i: int| 0 <= i < tasks.len() ==> !(unfinished(#[trigger] tasks[i]) && (opt_str(tasks[i].file_id) == Some(file_id)
        || (tasks[i].relative_path matches Some(p) && (in_subtree(p@, old_root) || in_subtree(p@, new_root)))))
}

/// The baseline after a move: the new path; for the moved root itself also
/// the cloud's name, parent, size and edit time. Local versions, hash and
/// status stay: a structural move proves no new content version.
pub open spec fn rekeyed_record(orig: SyncItem, moved: SyncItem, old_root: Seq<char>, new_root: Seq<char>, cloud_root: DriveFileView) -> bool {
    &&& moved.local_path@ == rekeyed(orig.local_path@, old_root, new_root)
    &&& moved.file_id == orig.file_id
    &&& moved.is_folder == orig.is_folder
    &&& moved.local_size == orig.local_size
    &&& moved.sha256 == orig.sha256
    &&& moved.local_mtime == orig.local_mtime
    &&& moved.last_sync_time == orig.last_sync_time
    &&& moved.status == orig.status
    &&& moved.error_message == orig.error_message
    &&& if orig.file_id@ == cloud_root.id {
        &&& moved.name@ == cloud_root.name
        &&& opt_str(moved.parent_folder_id) == cloud_root.first_parent()
        &&& moved.size == cloud_root.size
        &&& moved.cloud_edited_time == cloud_root.edited_time
    } else {
        &&& moved.name == orig.name
        &&& moved.parent_folder_id == orig.parent_folder_id
        &&& moved.size == orig.size
        &&& moved.cloud_edited_time == orig.cloud_edited_time
    }
}

/// What a recovery of one path change does.
#[derive(Debug)]
pub enum RecoveryPlan {
    /// The local side carries no identity mark: the ordinary sync handles it.
    Unmarked,
    /// Re-key the subtree: rename on disk first when needed, then replace the
    /// `removed` baselines by the `rekeyed` ones.
    Rekey { rename_needed: bool, removed: Vec<SyncItem>, rekeyed: Vec<SyncItem> },
}

/// The outcome of planning a recovery: `None` for an error, `Some(None)` for
/// an unmarked change, `Some(Some(moved))` for a re-key where `moved` says
/// that the disk already shows the new path.
pub open spec fn recovery_outcome(
    root: SyncItem,
    new_root: Seq<char>,
    records: Seq<SyncItem>,
    tree: PathMap<DriveFile>,
    cloud_root: DriveFileView,
    old_obs: Option<(EntryType, Option<Seq<char>>)>,
    new_obs: Option<(EntryType, Option<Seq<char>>)>,
    tasks: Seq<TransferTask>,
) -> Option<Option<bool>> {
    let old_root = root.local_path@;
    let fid = root.file_id@;
    if !safe_relative(old_root) || !safe_relative(new_root) || baseline_count(records, fid) != 1
        || cloud_root.is_folder() != root.is_folder || (root.is_folder && in_subtree(new_root, old_root)) {
        None
    } else {
        let moved: Option<Option<bool>> = match (old_obs, new_obs) {
            (Some(_), Some(_)) => None,
            (Some((t, owner)), None) => if owner != Some(fid) {
                Some(None)
            } else if !type_matches(t, root.is_folder) {
                None
            } else {
                Some(Some(false))
            },
            (None, Some((t, owner))) => if owner != Some(fid) || !type_matches(t, root.is_folder) {
                None
            } else {
                Some(Some(true))
            },
            (None, None) => Some(None),
        };
        match moved {
            Some(Some(m)) => if subtree_consistent(subtree_of(records, old_root), tree, old_root, new_root)
                && target_free(records, old_root, new_root)
                && tree.as_map().contains_key(new_root) && tree.as_map()[new_root].id == fid
                && no_active_transfer(tasks, fid, old_root, new_root) {
                Some(Some(m))
            } else {
                None
            },
            other => other,
        }
    }
}


/// Observation as plain values.
pub open spec fn obs_view(o: Option<&LocalObservation>) -> Option<(EntryType, Option<Seq<char>>)> {
    match o {
        Some(x) => Some((x.entry_type, opt_str(x.owner))),
        None => None,
    }
}

/// Number of baselines with fileId `file_id`.
fn count_baselines(records: &Vec<SyncItem>, file_id: &str) -> (c: usize)
    ensures
        c == baseline_count(records@, file_id@),
{
    let mut c: usize = 0;
    let mut i: usize = 0;
    assert(records@.take(0) =~= Seq::<SyncItem>::empty());
    while i < records.len()
        invariant
            i <= records@.len(),
            c == baseline_count(records@.take(i as int), file_id@),
            c <= i,
        decreases records@.len() - i,
    {
        assert(records@.take(i as int + 1).drop_last() =~= records@.take(i as int));
        if crate::paths::str_equal(records[i].file_id.as_str(), file_id) {
            c = c + 1;
        }
        i = i + 1;
    }
    assert(records@.take(records@.len() as int) =~= records@);
    c
}

/// Copies of the baselines in the subtree at `root`.
fn collect_subtree(records: &Vec<SyncItem>, root: &str) -> (sub: Vec<SyncItem>)
    ensures
        sub@ == subtree_of(records@, root@),
{
    let mut sub: Vec<SyncItem> = Vec::new();
    let mut i: usize = 0;
    assert(records@.take(0) =~= Seq::<SyncItem>::empty());
    while i < records.len()
        invariant
            i <= records@.len(),
            sub@ == subtree_of(records@.take(i as int), root@),
        decreases records@.len() - i,
    {
        assert(records@.take(i as int + 1).drop_last() =~= records@.take(i as int));
        if crate::paths::is_in_subtree(records[i].local_path.as_str(), root) {
            sub.push(records[i].duplicate());
        }
        i = i + 1;
    }
    assert(records@.take(records@.len() as int) =~= records@);
    sub
}

/// Whether the moved subtree agrees with the cloud's unique paths.
fn check_subtree_consistent(sub: &Vec<SyncItem>, tree: &PathMap<DriveFile>, old_root: &str, new_root: &str) -> (b: bool)
    requires
        forall|i: int| 0 <= i < sub@.len() ==> in_subtree((#[trigger] sub@[i]).local_path@, old_root@),
    ensures
        b == subtree_consistent(sub@, *tree, old_root@, new_root@),
{
    let mut i: usize = 0;
    while i < sub.len()
        invariant
            i <= sub@.len(),
            forall|j: int| 0 <= j < sub@.len() ==> in_subtree((#[trigger] sub@[j]).local_path@, old_root@),
            forall|j: int| 0 <= j < i ==> (unique_cloud_path(*tree, (#[trigger] sub@[j]).file_id@) matches Some(p)
                ==> p == rekeyed(sub@[j].local_path@, old_root@, new_root@)),
        decreases sub@.len() - i,
    {
        let record = &sub[i];
        assert(in_subtree(sub@[i as int].local_path@, old_root@));
        if let Some(actual) = find_unique_cloud_path(tree, record.file_id.as_str()) {
            match rekey_path(record.local_path.as_str(), old_root, new_root) {
                Ok(expected) => {
                    if !crate::paths::str_equal(actual.as_str(), expected.as_str()) {
                        return false;
                    }
                },
                Err(_) => return false,
            }
        }
        i = i + 1;
    }
    true
}

/// Whether no baseline outside the old subtree lies in the target subtree.
fn check_target_free(records: &Vec<SyncItem>, old_root: &str, new_root: &str) -> (b: bool)
    ensures
        b == target_free(records@, old_root@, new_root@),
{
    let mut i: usize = 0;
    while i < records.len()
        invariant
            i <= records@.len(),
            forall|j: int| 0 <= j < i ==> !(!in_subtree((#[trigger] records@[j]).local_path@, old_root@)
                && in_subtree(records@[j].local_path@, new_root@)),
        decreases records@.len() - i,
    {
        let p = records[i].local_path.as_str();
        if !crate::paths::is_in_subtree(p, old_root) && crate::paths::is_in_subtree(p, new_root) {
            return false;
        }
        i = i + 1;
    }
    true
}

/// Whether a task is not finished.
fn is_unfinished(t: &TransferTask) -> (b: bool)
    ensures
        b == unfinished(*t),
{
    match t.state_kind() {
        Some(s) => match s {
            TransferState::Completed | TransferState::Failed | TransferState::Canceled => false,
            _ => true,
        },
        None => false,
    }
}

/// Check that no unfinished task concerns the fileId or either subtree.
pub fn ensure_no_active_transfer(tasks: &Vec<TransferTask>, file_id: &str, old_root: &str, new_root: &str) -> (r: Result<(), AppError>)
    ensures
        r is Ok <==> no_active_transfer(tasks@, file_id@, old_root@, new_root@),
        r matches Err(e) ==> (e matches AppError::Generic { message } && message@ == "路径恢复涉及活动传输，拒绝并发重键"@),
{
    let mut i: usize = 0;
    while i < tasks.len()
        invariant
            i <= tasks@.len(),
            forall|j: int| 0 <= j < i ==> !(unfinished(#[trigger] tasks@[j]) && (opt_str(tasks@[j].file_id) == Some(file_id@)
                || (tasks@[j].relative_path matches Some(p) && (in_subtree(p@, old_root@) || in_subtree(p@, new_root@))))),
        decreases tasks@.len() - i,
    {
        let t = &tasks[i];
        if is_unfinished(t) {
            let same_id = match &t.file_id {
                Some(f) => crate::paths::str_equal(f.as_str(), file_id),
                None => false,
            };
            let in_paths = match &t.relative_path {
                Some(p) => crate::paths::is_in_subtree(p.as_str(), old_root) || crate::paths::is_in_subtree(p.as_str(), new_root),
                None => false,
            };
            if same_id || in_paths {
                return Err(AppError::generic("路径恢复涉及活动传输，拒绝并发重键"));
            }
        }
        i = i + 1;
    }
    Ok(())
}

/// The baseline of `orig` after the move.
fn rekey_record(orig: &SyncItem, old_root: &str, new_root: &str, cloud_root: &DriveFile) -> (moved: SyncItem)
    requires
        in_subtree(orig.local_path@, old_root@),
    ensures
        rekeyed_record(*orig, moved, old_root@, new_root@, cloud_root@),
{
    let mut moved = orig.duplicate();
    match rekey_path(orig.local_path.as_str(), old_root, new_root) {
        Ok(p) => moved.local_path = p,
        Err(_) => {},
    }
    if crate::paths::str_equal(orig.file_id.as_str(), cloud_root.id.as_str()) {
        moved.name = cloud_root.name.clone();
        moved.parent_folder_id = cloud_root.first_parent();
        moved.size = cloud_root.size;
        moved.cloud_edited_time = cloud_root.edited_time;
    }
    moved
}

/// Decide how to finish one interrupted path change from what the baselines,
/// the trusted cloud tree, the durable tasks and the disk show.
pub fn plan_path_recovery(
    root: &SyncItem,
    new_root: &str,
    records: &Vec<SyncItem>,
    cloud_tree: &PathMap<DriveFile>,
    cloud_root: &DriveFile,
    old_obs: Option<&LocalObservation>,
    new_obs: Option<&LocalObservation>,
    tasks: &Vec<TransferTask>,
) -> (r: Result<RecoveryPlan, AppError>)
    requires
        cloud_tree.wf(),
    ensures
        r is Err <==> recovery_outcome(*root, new_root@, records@, *cloud_tree, cloud_root@,
            obs_view(old_obs), obs_view(new_obs), tasks@) is None,
        r matches Ok(RecoveryPlan::Unmarked) <==> recovery_outcome(*root, new_root@, records@, *cloud_tree,
            cloud_root@, obs_view(old_obs), obs_view(new_obs), tasks@) == Some(None::<bool>),
        r matches Ok(RecoveryPlan::Rekey { rename_needed, removed, rekeyed }) ==> {
            &&& recovery_outcome(*root, new_root@, records@, *cloud_tree, cloud_root@,
                obs_view(old_obs), obs_view(new_obs), tasks@) == Some(Some(!rename_needed))
            &&& removed@ == subtree_of(records@, root.local_path@)
            &&& rekeyed@.len() == removed@.len()
            &&& forall|i: int| 0 <= i < removed@.len() ==> rekeyed_record(#[trigger] removed@[i], rekeyed@[i],
                root.local_path@, new_root@, cloud_root@)
        },
{
    let old_root = root.local_path.as_str();
    let fid = root.file_id.as_str();
    if !crate::paths::is_safe_relative_path(old_root, false) || !crate::paths::is_safe_relative_path(new_root, false) {
        return Err(AppError::config("不安全的相对路径"));
    }
    if count_baselines(records, fid) != 1 {
        return Err(AppError::generic("同一 fileId 存在多条本地基线，拒绝猜测路径"));
    }
    if cloud_root.is_folder() != root.is_folder {
        return Err(AppError::generic("云端与本地基线类型不一致，拒绝路径恢复"));
    }
    if root.is_folder && crate::paths::is_in_subtree(new_root, old_root) {
        return Err(AppError::generic("远端路径恢复拒绝把目录移入自身"));
    }
    let owner_is = |o: &LocalObservation| -> (b: bool)
        ensures
            b == (opt_str(o.owner) == Some(root.file_id@)),
    {
        match &o.owner {
            Some(x) => crate::paths::str_equal(x.as_str(), root.file_id.as_str()),
            None => false,
        }
    };
    let type_ok = |t: EntryType| -> (b: bool)
        ensures
            b == type_matches(t, root.is_folder),
    {
        if root.is_folder {
            match t { EntryType::Directory => true, _ => false }
        } else {
            match t { EntryType::File => true, _ => false }
        }
    };
    let already_moved = match (old_obs, new_obs) {
        (Some(_), Some(_)) => return Err(AppError::generic("远端路径已变更，但源和目标同时存在，拒绝覆盖")),
        (Some(o), None) => {
            if !owner_is(o) {
                return Ok(RecoveryPlan::Unmarked);
            }
            if !type_ok(o.entry_type) {
                return Err(AppError::generic("路径恢复目标类型不一致，拒绝操作"));
            }
            false
        },
        (None, Some(n)) => {
            if !owner_is(n) {
                return Err(AppError::generic("远端路径已变更，但目标被其他本地内容占用"));
            }
            if !type_ok(n.entry_type) {
                return Err(AppError::generic("路径恢复目标类型不一致，拒绝操作"));
            }
            true
        },
        (None, None) => return Ok(RecoveryPlan::Unmarked),
    };
    let removed = collect_subtree(records, old_root);
    proof {
        lemma_subtree_members(records@, old_root@);
    }
    if !check_subtree_consistent(&removed, cloud_tree, old_root, new_root) {
        return Err(AppError::generic("远端子树路径不一致，拒绝本地重键"));
    }
    if !check_target_free(records, old_root, new_root) {
        return Err(AppError::generic("目标 DB 子树已被其他记录占用，拒绝覆盖"));
    }
    let confirmed = match cloud_tree.get(new_root) {
        Some(f) => crate::paths::str_equal(f.id.as_str(), fid),
        None => false,
    };
    if !confirmed {
        return Err(AppError::generic("可信云树无法确认目标 fileId，拒绝路径恢复"));
    }
    match ensure_no_active_transfer(tasks, fid, old_root, new_root) {
        Ok(()) => {},
        Err(e) => return Err(e),
    }
    let mut rekeyed: Vec<SyncItem> = Vec::new();
    let mut i: usize = 0;
    while i < removed.len()
        invariant
            i <= removed@.len(),
            old_root@ == root.local_path@,
            rekeyed@.len() == i,
            forall|j: int| 0 <= j < removed@.len() ==> in_subtree((#[trigger] removed@[j]).local_path@, root.local_path@),
            forall|j: int| 0 <= j < i ==> rekeyed_record(#[trigger] removed@[j], rekeyed@[j],
                root.local_path@, new_root@, cloud_root@),
        decreases removed@.len() - i,
    {
        assert(in_subtree(removed@[i as int].local_path@, root.local_path@));
        let moved = rekey_record(&removed[i], old_root, new_root, cloud_root);
        let ghost before = rekeyed@;
        rekeyed.push(moved);
        assert(forall|j: int| 0 <= j < i ==> rekeyed@[j] == before[j]);
        i = i + 1;
    }
    Ok(RecoveryPlan::Rekey { rename_needed: !already_moved, removed, rekeyed })
}

/// Every member of a subtree listing lies in the subtree.
proof fn lemma_subtree_members(records: Seq<SyncItem>, root: Seq<char>)
    ensures
        forall|i: int| 0 <= i < subtree_of(records, root).len() ==> in_subtree((#[trigger] subtree_of(records, root)[i]).local_path@, root),
    decreases records.len(),
{
    if records.len() > 0 {
        lemma_subtree_members(records.drop_last(), root);
    }
}


/// Number of non-empty `/`-separated segments of a path.
pub open spec fn segment_count(path: Seq<char>) -> nat
    decreases path.len(),
{
    if path.len() == 0 {
        0
    } else {
        let starts = path.last() != '/' && (path.len() == 1 || path[path.len() - 2] == '/');
        segment_count(path.drop_last()) + if starts { 1nat } else { 0nat }
    }
}

/// Number of non-empty segments of a path.
fn count_segments(path: &str) -> (n: usize)
    ensures
        n == segment_count(path@),
{
    let len = path.unicode_len();
    let mut n: usize = 0;
    let mut i: usize = 0;
    while i < len
        invariant
            len == path@.len(),
            i <= len,
            n == segment_count(path@.take(i as int)),
            n <= i,
        decreases len - i,
    {
        let c = path.get_char(i);
        assert(path@.take(i as int + 1).drop_last() =~= path@.take(i as int));
        if c != '/' && (i == 0 || path.get_char(i - 1) == '/') {
            n = n + 1;
        }
        i = i + 1;
    }
    assert(path@.take(len as int) =~= path@);
    n
}

/// The order key of a recovery candidate: shallow paths first, folders
/// before files at the same depth.
pub open spec fn candidate_key(r: SyncItem) -> int {
    2 * segment_count(r.local_path@) + if r.is_folder { 0int } else { 1int }
}

/// A baseline whose single cloud entry now lies at another path.
pub open spec fn moved_remotely(r: SyncItem, tree: PathMap<DriveFile>) -> bool {
    unique_cloud_path(tree, r.file_id@) matches Some(p) && p != r.local_path@
}

/// The baselines whose cloud path changed, with their new paths: shallow
/// ones first and folders before files, in record order otherwise, so that a
/// moved folder re-keys its descendants before they are looked at.
pub fn recovery_candidates(records: &Vec<SyncItem>, cloud_tree: &PathMap<DriveFile>) -> (r: Vec<(usize, String)>)
    ensures
        forall|k: int| 0 <= k < r@.len() ==> (#[trigger] r@[k]).0 < records@.len()
            && moved_remotely(records@[r@[k].0 as int], *cloud_tree)
            && unique_cloud_path(*cloud_tree, records@[r@[k].0 as int].file_id@) == Some(r@[k].1@),
        forall|i: int| 0 <= i < records@.len() && moved_remotely(#[trigger] records@[i], *cloud_tree)
            ==> exists|k: int| 0 <= k < r@.len() && r@[k].0 == i,
        forall|k: int, l: int| 0 <= k < l < r@.len() ==>
            candidate_key(records@[(#[trigger] r@[k]).0 as int]) < candidate_key(records@[(#[trigger] r@[l]).0 as int])
            || (candidate_key(records@[r@[k].0 as int]) == candidate_key(records@[r@[l].0 as int]) && r@[k].0 < r@[l].0),
{
    let n = records.len();
    let mut paths: Vec<Option<String>> = Vec::new();
    let mut keys: Vec<u128> = Vec::new();
    let mut maxk: u128 = 0;
    let mut i: usize = 0;
    while i < n
        invariant
            n == records@.len(),
            i <= n,
            paths@.len() == i,
            keys@.len() == i,
            maxk < 0x4_0000_0000_0000_0000u128,
            forall|j: int| 0 <= j < i ==> keys@[j] == candidate_key(#[trigger] records@[j]),
            forall|j: int| 0 <= j < i ==> #[trigger] keys@[j] <= maxk,
            forall|j: int| 0 <= j < i ==> match (#[trigger] paths@[j]) {
                Some(p) => moved_remotely(records@[j], *cloud_tree)
                    && unique_cloud_path(*cloud_tree, records@[j].file_id@) == Some(p@),
                None => !moved_remotely(records@[j], *cloud_tree),
            },
        decreases n - i,
    {
        let rec = &records[i];
        let found = find_unique_cloud_path(cloud_tree, rec.file_id.as_str());
        let entry = match found {
            Some(p) => if !crate::paths::str_equal(p.as_str(), rec.local_path.as_str()) { Some(p) } else { None },
            None => None,
        };
        paths.push(entry);
        let segs = count_segments(rec.local_path.as_str());
        let key: u128 = 2 * (segs as u128) + if rec.is_folder { 0 } else { 1 };
        keys.push(key);
        if key > maxk {
            maxk = key;
        }
        i = i + 1;
    }
    let mut order: Vec<(usize, String)> = Vec::new();
    let mut d: u128 = 0;
    let top: u128 = maxk;
    while d <= top
        invariant
            n == records@.len(),
            paths@.len() == n,
            keys@.len() == n,
            top == maxk,
            top < 0x4_0000_0000_0000_0000u128,
            forall|j: int| 0 <= j < n ==> keys@[j] == candidate_key(#[trigger] records@[j]),
            forall|j: int| 0 <= j < n ==> #[trigger] keys@[j] <= top,
            forall|j: int| 0 <= j < n ==> match (#[trigger] paths@[j]) {
                Some(p) => moved_remotely(records@[j], *cloud_tree)
                    && unique_cloud_path(*cloud_tree, records@[j].file_id@) == Some(p@),
                None => !moved_remotely(records@[j], *cloud_tree),
            },
            d <= top + 1,
            forall|k: int| 0 <= k < order@.len() ==> (#[trigger] order@[k]).0 < n
                && paths@[order@[k].0 as int] == Some(order@[k].1) && keys@[order@[k].0 as int] < d,
            forall|j: int| 0 <= j < n && paths@[j] is Some && keys@[j] < d ==> exists|k: int| 0 <= k < order@.len() && #[trigger] order@[k].0 == j,
            forall|k: int, l: int| 0 <= k < l < order@.len() ==>
                keys@[(#[trigger] order@[k]).0 as int] < keys@[(#[trigger] order@[l]).0 as int]
                || (keys@[order@[k].0 as int] == keys@[order@[l].0 as int] && order@[k].0 < order@[l].0),
        decreases top + 1 - d,
    {
        let ghost start = order@.len();
        let mut j: usize = 0;
        assert(start == order@.len());
        while j < n
            invariant
                n == records@.len(),
                paths@.len() == n,
                keys@.len() == n,
                d <= top,
                j <= n,
                start <= order@.len(),
                forall|k: int| 0 <= k < order@.len() ==> (#[trigger] order@[k]).0 < n
                    && paths@[order@[k].0 as int] == Some(order@[k].1) && keys@[order@[k].0 as int] <= d
                    && (k < start ==> keys@[order@[k].0 as int] < d)
                    && (k >= start ==> keys@[order@[k].0 as int] == d && order@[k].0 < j),
                forall|x: int| 0 <= x < n && paths@[x] is Some && (keys@[x] < d || (keys@[x] == d && x < j))
                    ==> exists|k: int| 0 <= k < order@.len() && #[trigger] order@[k].0 == x,
                forall|k: int, l: int| 0 <= k < l < order@.len() ==>
                    keys@[(#[trigger] order@[k]).0 as int] < keys@[(#[trigger] order@[l]).0 as int]
                    || (keys@[order@[k].0 as int] == keys@[order@[l].0 as int] && order@[k].0 < order@[l].0),
            decreases n - j,
        {
            if keys[j] == d {
                if let Some(p) = &paths[j] {
                    let ghost before = order@;
                    order.push((j, p.clone()));
                    proof {
                        assert(order@[before.len() as int].0 == j);
                        assert forall|x: int| 0 <= x < n && paths@[x] is Some && (keys@[x] < d || (keys@[x] == d && x < j + 1))
                            implies exists|k: int| 0 <= k < order@.len() && #[trigger] order@[k].0 == x by {
                            if x == j as int {
                                assert(order@[before.len() as int].0 == x);
                            } else {
                                let k = choose|k: int| 0 <= k < before.len() && #[trigger] before[k].0 == x;
                                assert(order@[k].0 == x);
                            }
                        }
                        assert forall|k: int, l: int| 0 <= k < l < order@.len() implies
                            keys@[(#[trigger] order@[k]).0 as int] < keys@[(#[trigger] order@[l]).0 as int]
                            || (keys@[order@[k].0 as int] == keys@[order@[l].0 as int] && order@[k].0 < order@[l].0) by {
                            if l == before.len() {
                                assert(order@[k] == before[k]);
                            } else {
                                assert(order@[k] == before[k] && order@[l] == before[l]);
                            }
                        }
                    }
                }
            }
            j = j + 1;
        }
        d = d + 1;
    }
    order
}

} // verus!
