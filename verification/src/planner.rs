//! Three-way planner: compares local entries, the cloud tree and the database
//! baseline path by path and emits the synchronisation actions.

use vstd::prelude::*;
use crate::model::{
    actions_view, is_pending_file_id, opt_file, opt_str, pending_prefix, strs, DriveFile,
    DriveFileView, LocalFileEntry, LocalFileEntryView, SyncAction, SyncActionType,
    SyncActionView, DELETED, FAILED,
};
use crate::path_map::PathMap;
use crate::paths::has_prefix;

verus! {

/// Database baseline of one path, as far as planning needs it.
#[derive(Debug)]
pub struct DbSnapshotEntry {
    pub file_id: String,
    pub local_mtime: Option<i64>,
    pub local_size: Option<i64>,
    pub cloud_edited_time: Option<i64>,
    pub status: i32,
    pub is_folder: bool,
}

/// Mathematical view of [`DbSnapshotEntry`].
pub struct DbSnapshotEntryView {
    pub file_id: Seq<char>,
    pub local_mtime: Option<i64>,
    pub local_size: Option<i64>,
    pub cloud_edited_time: Option<i64>,
    pub status: i32,
    pub is_folder: bool,
}

impl View for DbSnapshotEntry {
    type V = DbSnapshotEntryView;

    open spec fn view(&self) -> DbSnapshotEntryView {
        DbSnapshotEntryView {
            file_id: self.file_id@,
            local_mtime: self.local_mtime,
            local_size: self.local_size,
            cloud_edited_time: self.cloud_edited_time,
            status: self.status,
            is_folder: self.is_folder,
        }
    }
}

/// The three views that one planning pass compares.
pub struct SyncSnapshot {
    /// Local entries by relative path.
    pub local: PathMap<LocalFileEntry>,
    /// Cloud tree by relative path.
    pub cloud: PathMap<DriveFile>,
    /// Database baselines by relative path.
    pub db: PathMap<DbSnapshotEntry>,
    /// The cloud tree comes from a complete, atomically committed checkpoint.
    /// Without it an absent cloud entry is no evidence and drives no deletion.
    pub cloud_tree_trusted: bool,
    /// The pass runs during startup recovery (changes deletion semantics).
    pub is_startup_resume: bool,
}

impl SyncSnapshot {
    /// Each of the three maps holds every path at most once.
    pub open spec fn wf(self) -> bool {
        self.local.wf() && self.cloud.wf() && self.db.wf()
    }
}

/// Planner of synchronisation actions.
pub struct SyncPlanner;

/// Map lookup as an `Option`.
pub open spec fn lookup<V>(m: Map<Seq<char>, V>, k: Seq<char>) -> Option<V> {
    if m.contains_key(k) {
        Some(m[k])
    } else {
        None
    }
}

/// Local content differs from the baseline: no recorded mtime, another mtime,
/// or (when a size is recorded) another size.
pub open spec fn local_changed(local: LocalFileEntryView, db: DbSnapshotEntryView) -> bool {
    match db.local_mtime {
        None => true,
        Some(mtime) => local.mtime != mtime || (db.local_size matches Some(size)
            && local.size as i64 != size),
    }
}

/// The cloud edit time differs from the baseline; a cloud file without an edit
/// time never counts as changed.
pub open spec fn cloud_changed(cloud: DriveFileView, db: DbSnapshotEntryView) -> bool {
    match cloud.edited_time {
        None => false,
        Some(edited) => match db.cloud_edited_time {
            None => true,
            Some(recorded) => edited != recorded,
        },
    }
}

/// An action value.
pub open spec fn act(
    action_type: SyncActionType,
    path: Seq<char>,
    file_id: Option<Seq<char>>,
    parent_file_id: Option<Seq<char>>,
    local_path: Option<Seq<char>>,
    cloud_file: Option<DriveFileView>,
    reason: Seq<char>,
) -> SyncActionView {
    SyncActionView {
        action_type,
        relative_path: Some(path),
        file_id,
        parent_file_id,
        local_path,
        cloud_file,
        reason: Some(reason),
    }
}

/// The decision table for one path, given what each side holds for it.
pub open spec fn decide_spec(
    path: Seq<char>,
    local: Option<LocalFileEntryView>,
    cloud: Option<DriveFileView>,
    db: Option<DbSnapshotEntryView>,
    startup: bool,
) -> Option<SyncActionView> {
    let local_exists = local is Some;
    let has_content = local is Some && !local->0.is_placeholder;
    let cloud_exists = cloud is Some;
    let db_exists = db is Some;
    if cloud_exists && cloud->0.is_folder() && !local_exists {
        let c = cloud->0;
        if db_exists && !startup {
            Some(act(SyncActionType::DeleteFromCloud, path, Some(c.id), None, None, None,
                "本地目录已删除 → 同步删除云端"@))
        } else if db_exists && startup && db->0.status == DELETED {
            None
        } else {
            Some(act(SyncActionType::CreateFolder, path, Some(c.id), c.first_parent(), None,
                Some(c), "云端文件夹 → 本地创建"@))
        }
    } else if cloud_exists && cloud->0.is_folder() {
        None
    } else if !local_exists && !cloud_exists && !db_exists {
        None
    } else if has_content && cloud_exists && db_exists {
        let l = local->0;
        let c = cloud->0;
        let d = db->0;
        if has_prefix(d.file_id, pending_prefix()) {
            Some(act(SyncActionType::Skip, path, Some(c.id), None, None, Some(c),
                "pending 占位项发现云端已有 → 收敛为已同步（上次失败实为成功）"@))
        } else if local_changed(l, d) && cloud_changed(c, d) {
            Some(act(SyncActionType::CreateConflictCopy, path, Some(c.id), None,
                Some(l.absolute_path), Some(c), "三方都存在，本地/云端均已修改 → 冲突"@))
        } else if local_changed(l, d) {
            Some(act(SyncActionType::Upload, path, Some(c.id), None, Some(l.absolute_path),
                Some(c), "本地已修改 → 上传"@))
        } else if cloud_changed(c, d) {
            Some(act(SyncActionType::Download, path, Some(c.id), None, Some(l.absolute_path),
                Some(c), "云端已修改 → 下载"@))
        } else {
            None
        }
    } else if local_exists && cloud_exists && !db_exists {
        Some(act(SyncActionType::Skip, path, Some(cloud->0.id), None, None, None,
            "双方都有但无 DB 记录 → skip，由 reconcile 补 DB"@))
    } else if local_exists && !cloud_exists {
        let l = local->0;
        if db_exists {
            let d = db->0;
            if has_prefix(d.file_id, pending_prefix()) {
                if d.status == FAILED {
                    None
                } else {
                    Some(act(SyncActionType::Upload, path, None, None, Some(l.absolute_path), None,
                        "pending 占位项（上传待重试）→ 重新上传"@))
                }
            } else if startup && !local_changed(l, d) {
                Some(act(SyncActionType::Skip, path, Some(d.file_id), None, None, None,
                    "启动恢复期 cloud_tree 不可信，跳过删除待复核"@))
            } else if l.is_folder {
                Some(act(SyncActionType::DeleteFromLocal, path, Some(d.file_id), None,
                    Some(l.absolute_path), None, "云端已删除文件夹 → 同步删除本地"@))
            } else if has_content && local_changed(l, d) {
                Some(act(SyncActionType::BackupBeforeCloudDelete, path, Some(d.file_id), None,
                    Some(l.absolute_path), None, "云端已删除但本地有未上传修改 → 备份副本"@))
            } else {
                Some(act(SyncActionType::DeleteFromLocal, path, Some(d.file_id), None,
                    Some(l.absolute_path), None, "云端已删除 → 删除本地"@))
            }
        } else if !has_content {
            Some(act(SyncActionType::DeleteFromLocal, path, None, None, Some(l.absolute_path),
                None, "孤儿占位符 → 清理"@))
        } else if l.is_folder {
            Some(act(SyncActionType::CreateFolder, path, None, None, Some(l.absolute_path), None,
                "本地新增文件夹 → 创建云端文件夹"@))
        } else {
            Some(act(SyncActionType::Upload, path, None, None, Some(l.absolute_path), None,
                "本地新文件 → 上传"@))
        }
    } else if !local_exists && cloud_exists {
        let c = cloud->0;
        if db_exists && !startup {
            Some(act(SyncActionType::DeleteFromCloud, path, Some(c.id), None, None, None,
                "会话内删除 → 双向删除云端"@))
        } else if db_exists && startup && db->0.status == DELETED {
            Some(act(SyncActionType::Skip, path, None, None, None, None,
                "用户已删除（tombstone）→ 跳过"@))
        } else if startup && db_exists {
            Some(act(SyncActionType::CreatePlaceholder, path, Some(c.id), None, None, Some(c),
                "启动后恢复删除 → 重建占位"@))
        } else {
            Some(act(SyncActionType::CreatePlaceholder, path, Some(c.id), None, None, Some(c),
                "云端新文件 → 创建占位"@))
        }
    } else {
        None
    }
}

/// The decision for `path` in a snapshot.
pub open spec fn decide_in(path: Seq<char>, snap: SyncSnapshot) -> Option<SyncActionView> {
    decide_spec(
        path,
        lookup(snap.local.as_map(), path),
        lookup(snap.cloud.as_map(), path),
        lookup(snap.db.as_map(), path),
        snap.is_startup_resume,
    )
}

/// Whether `plan` keeps a decided action: deletions need a trusted cloud
/// tree, and a skip is kept only when it carries the cloud file that settles
/// a pending baseline.
pub open spec fn emitted(a: SyncActionView, trusted: bool) -> bool {
    &&& (trusted || (a.action_type != SyncActionType::DeleteFromLocal
        && a.action_type != SyncActionType::DeleteFromCloud))
    &&& !(a.action_type == SyncActionType::Skip && a.cloud_file is None)
}

/// `acc` followed by the elements of `more` that are not yet in it, in order.
pub open spec fn append_new(acc: Seq<Seq<char>>, more: Seq<Seq<char>>) -> Seq<Seq<char>>
    decreases more.len(),
{
    if more.len() == 0 {
        acc
    } else {
        let prefix = append_new(acc, more.drop_last());
        if prefix.contains(more.last()) {
            prefix
        } else {
            prefix.push(more.last())
        }
    }
}

/// Every path that any side knows, each once: local paths first, then new
/// cloud paths, then new database paths.
pub open spec fn all_paths(snap: SyncSnapshot) -> Seq<Seq<char>> {
    append_new(append_new(snap.local.keys(), snap.cloud.keys()), snap.db.keys())
}

/// The emitted decisions for `paths`, in order.
pub open spec fn plan_over(paths: Seq<Seq<char>>, snap: SyncSnapshot) -> Seq<SyncActionView>
    decreases paths.len(),
{
    if paths.len() == 0 {
        Seq::empty()
    } else {
        let prefix = plan_over(paths.drop_last(), snap);
        match decide_in(paths.last(), snap) {
            Some(a) => if emitted(a, snap.cloud_tree_trusted) {
                prefix.push(a)
            } else {
                prefix
            },
            None => prefix,
        }
    }
}

/// Whether the local entry differs from the database baseline.
pub fn is_local_changed(local: &LocalFileEntry, db: &DbSnapshotEntry) -> (b: bool)
    ensures
        b == local_changed(local@, db@),
{
    match db.local_mtime {
        None => true,
        Some(mtime) => {
            if local.mtime != mtime {
                return true;
            }
            match db.local_size {
                Some(size) => local.size as i64 != size,
                None => false,
            }
        },
    }
}

/// Whether the cloud edit time differs from the database baseline.
pub fn is_cloud_changed(cloud: &DriveFile, db: &DbSnapshotEntry) -> (b: bool)
    ensures
        b == cloud_changed(cloud@, db@),
{
    match cloud.edited_time {
        None => false,
        Some(edited) => match db.cloud_edited_time {
            None => true,
            Some(recorded) => edited != recorded,
        },
    }
}

/// Build an action for `path`.
fn make_action(
    action_type: SyncActionType,
    path: &str,
    file_id: Option<String>,
    parent_file_id: Option<String>,
    local_path: Option<String>,
    cloud_file: Option<DriveFile>,
    reason: &str,
) -> (a: SyncAction)
    ensures
        a@ == act(action_type, path@, opt_str(file_id), opt_str(parent_file_id),
            opt_str(local_path), opt_file(cloud_file), reason@),
{
    SyncAction {
        action_type,
        relative_path: Some(path.to_owned()),
        file_id,
        parent_file_id,
        local_path,
        cloud_file,
        reason: Some(reason.to_owned()),
    }
}

/// Optional action, as a view.
pub open spec fn opt_action(o: Option<SyncAction>) -> Option<SyncActionView> {
    match o {
        Some(a) => Some(a@),
        None => None,
    }
}

/// Whether `v` holds a string equal to `s`.
pub fn strings_contain(v: &Vec<String>, s: &str) -> (b: bool)
    ensures
        b == strs(*v).contains(s@),
{
    let mut i: usize = 0;
    while i < v.len()
        invariant
            i <= v.len(),
            forall|j: int| 0 <= j < i ==> v@[j]@ != s@,
        decreases v.len() - i,
    {
        if crate::paths::str_equal(v[i].as_str(), s) {
            assert(strs(*v)[i as int] == s@);
            return true;
        }
        i = i + 1;
    }
    proof {
        if strs(*v).contains(s@) {
            let j = choose|j: int| 0 <= j < strs(*v).len() && strs(*v)[j] == s@;
            assert(v@[j]@ == s@);
        }
    }
    false
}

/// Append to `acc` the keys of `map` that it does not hold yet.
fn append_new_keys<V: View>(acc: &mut Vec<String>, map: &PathMap<V>)
    ensures
        strs(*final(acc)) == append_new(strs(*old(acc)), map.keys()),
{
    let ghost start = strs(*acc);
    let mut i: usize = 0;
    while i < map.len()
        invariant
            i <= map.keys().len(),
            strs(*acc) == append_new(start, map.keys().take(i as int)),
        decreases map.keys().len() - i,
    {
        let key = map.key(i);
        assert(map.keys().take(i as int + 1).drop_last() =~= map.keys().take(i as int));
        if !strings_contain(acc, key.as_str()) {
            acc.push(key.clone());
            assert(strs(*acc) =~= append_new(start, map.keys().take(i as int)).push(key@));
        }
        i = i + 1;
    }
    assert(map.keys().take(map.keys().len() as int) =~= map.keys());
}

impl SyncPlanner {
    /// Decide the action for one path (the decision table).
    pub fn decide(&self, rel_path: &str, snap: &SyncSnapshot) -> (r: Option<SyncAction>)
        requires
            snap.wf(),
        ensures
            opt_action(r) == decide_in(rel_path@, *snap),
    {
        let local = snap.local.get(rel_path);
        let cloud = snap.cloud.get(rel_path);
        let db = snap.db.get(rel_path);
        let startup = snap.is_startup_resume;
        let local_exists = local.is_some();
        let has_content = match local {
            Some(e) => !e.is_placeholder,
            None => false,
        };
        let cloud_exists = cloud.is_some();
        let db_exists = db.is_some();

        if let Some(c) = cloud {
            if c.is_folder() {
                if !local_exists {
                    if db_exists && !startup {
                        return Some(make_action(SyncActionType::DeleteFromCloud, rel_path,
                            Some(c.id.clone()), None, None, None, "本地目录已删除 → 同步删除云端"));
                    }
                    if let Some(d) = db {
                        if startup && d.status == DELETED {
                            return None;
                        }
                    }
                    return Some(make_action(SyncActionType::CreateFolder, rel_path,
                        Some(c.id.clone()), c.first_parent(), None, Some(c.duplicate()),
                        "云端文件夹 → 本地创建"));
                }
                return None;
            }
        }
        if !local_exists && !cloud_exists && !db_exists {
            return None;
        }
        if has_content && cloud_exists && db_exists {
            let l = local.unwrap();
            let c = cloud.unwrap();
            let d = db.unwrap();
            if is_pending_file_id(d.file_id.as_str()) {
                return Some(make_action(SyncActionType::Skip, rel_path, Some(c.id.clone()), None,
                    None, Some(c.duplicate()),
                    "pending 占位项发现云端已有 → 收敛为已同步（上次失败实为成功）"));
            }
            let lc = is_local_changed(l, d);
            let cc = is_cloud_changed(c, d);
            if lc && cc {
                return Some(make_action(SyncActionType::CreateConflictCopy, rel_path,
                    Some(c.id.clone()), None, Some(l.absolute_path.clone()), Some(c.duplicate()),
                    "三方都存在，本地/云端均已修改 → 冲突"));
            } else if lc {
                return Some(make_action(SyncActionType::Upload, rel_path, Some(c.id.clone()),
                    None, Some(l.absolute_path.clone()), Some(c.duplicate()), "本地已修改 → 上传"));
            } else if cc {
                return Some(make_action(SyncActionType::Download, rel_path, Some(c.id.clone()),
                    None, Some(l.absolute_path.clone()), Some(c.duplicate()), "云端已修改 → 下载"));
            } else {
                return None;
            }
        }
        if local_exists && cloud_exists && !db_exists {
            let c = cloud.unwrap();
            return Some(make_action(SyncActionType::Skip, rel_path, Some(c.id.clone()), None,
                None, None, "双方都有但无 DB 记录 → skip，由 reconcile 补 DB"));
        }
        if local_exists && !cloud_exists {
            let l = local.unwrap();
            if let Some(d) = db {
                if is_pending_file_id(d.file_id.as_str()) {
                    if d.status == FAILED {
                        return None;
                    }
                    return Some(make_action(SyncActionType::Upload, rel_path, None, None,
                        Some(l.absolute_path.clone()), None, "pending 占位项（上传待重试）→ 重新上传"));
                }
                let lc = is_local_changed(l, d);
                if startup && !lc {
                    return Some(make_action(SyncActionType::Skip, rel_path,
                        Some(d.file_id.clone()), None, None, None,
                        "启动恢复期 cloud_tree 不可信，跳过删除待复核"));
                }
                if l.is_folder {
                    return Some(make_action(SyncActionType::DeleteFromLocal, rel_path,
                        Some(d.file_id.clone()), None, Some(l.absolute_path.clone()), None,
                        "云端已删除文件夹 → 同步删除本地"));
                }
                if has_content && lc {
                    return Some(make_action(SyncActionType::BackupBeforeCloudDelete, rel_path,
                        Some(d.file_id.clone()), None, Some(l.absolute_path.clone()), None,
                        "云端已删除但本地有未上传修改 → 备份副本"));
                }
                return Some(make_action(SyncActionType::DeleteFromLocal, rel_path,
                    Some(d.file_id.clone()), None, Some(l.absolute_path.clone()), None,
                    "云端已删除 → 删除本地"));
            }
            if !has_content {
                return Some(make_action(SyncActionType::DeleteFromLocal, rel_path, None, None,
                    Some(l.absolute_path.clone()), None, "孤儿占位符 → 清理"));
            }
            if l.is_folder {
                return Some(make_action(SyncActionType::CreateFolder, rel_path, None, None,
                    Some(l.absolute_path.clone()), None, "本地新增文件夹 → 创建云端文件夹"));
            }
            return Some(make_action(SyncActionType::Upload, rel_path, None, None,
                Some(l.absolute_path.clone()), None, "本地新文件 → 上传"));
        }
        if !local_exists && cloud_exists {
            let c = cloud.unwrap();
            if db_exists && !startup {
                return Some(make_action(SyncActionType::DeleteFromCloud, rel_path,
                    Some(c.id.clone()), None, None, None, "会话内删除 → 双向删除云端"));
            }
            if let Some(d) = db {
                if startup && d.status == DELETED {
                    return Some(make_action(SyncActionType::Skip, rel_path, None, None, None, None,
                        "用户已删除（tombstone）→ 跳过"));
                }
            }
            if startup && db_exists {
                return Some(make_action(SyncActionType::CreatePlaceholder, rel_path,
                    Some(c.id.clone()), None, None, Some(c.duplicate()), "启动后恢复删除 → 重建占位"));
            }
            return Some(make_action(SyncActionType::CreatePlaceholder, rel_path,
                Some(c.id.clone()), None, None, Some(c.duplicate()), "云端新文件 → 创建占位"));
        }
        None
    }

    /// Plan the whole snapshot: every path that any side knows, in the order
    /// local, cloud, database, each once; undecided paths, untrusted deletions
    /// and plain skips are left out.
    pub fn plan(&self, snapshot: &SyncSnapshot) -> (actions: Vec<SyncAction>)
        requires
            snapshot.wf(),
        ensures
            actions_view(actions@) == plan_over(all_paths(*snapshot), *snapshot),
    {
        let mut paths: Vec<String> = Vec::new();
        assert(strs(paths) =~= Seq::<Seq<char>>::empty());
        append_new_keys(&mut paths, &snapshot.local);
        assert(append_new(Seq::empty(), snapshot.local.keys()) == snapshot.local.keys()) by {
            lemma_append_new_from_empty(snapshot.local.keys());
        }
        append_new_keys(&mut paths, &snapshot.cloud);
        append_new_keys(&mut paths, &snapshot.db);
        let ghost all = strs(paths);
        assert(all == all_paths(*snapshot));

        let mut actions: Vec<SyncAction> = Vec::new();
        let mut i: usize = 0;
        while i < paths.len()
            invariant
                snapshot.wf(),
                all == strs(paths),
                i <= paths@.len(),
                actions_view(actions@) == plan_over(all.take(i as int), *snapshot),
            decreases paths@.len() - i,
        {
            let path = paths[i].as_str();
            assert(all.take(i as int + 1).drop_last() =~= all.take(i as int));
            assert(all.take(i as int + 1).last() == path@);
            if let Some(action) = self.decide(path, snapshot) {
                let deletion = match action.action_type {
                    SyncActionType::DeleteFromLocal | SyncActionType::DeleteFromCloud => true,
                    _ => false,
                };
                let plain_skip = match action.action_type {
                    SyncActionType::Skip => action.cloud_file.is_none(),
                    _ => false,
                };
                if !(!snapshot.cloud_tree_trusted && deletion) && !plain_skip {
                    let ghost before = actions@;
                    actions.push(action);
                    assert(actions_view(actions@) =~= actions_view(before).push(action@));
                }
            }
            i = i + 1;
        }
        assert(all.take(all.len() as int) =~= all);
        actions
    }
}

/// Appending new keys to nothing gives a sequence without duplicates back.
proof fn lemma_append_new_from_empty(s: Seq<Seq<char>>)
    requires
        s.no_duplicates(),
    ensures
        append_new(Seq::empty(), s) == s,
    decreases s.len(),
{
    if s.len() > 0 {
        let t = s.drop_last();
        assert(t.no_duplicates());
        lemma_append_new_from_empty(t);
        assert(!t.contains(s.last())) by {
            if t.contains(s.last()) {
                let j = choose|j: int| 0 <= j < t.len() && t[j] == s.last();
                assert(s[j] == s[s.len() - 1]);
            }
        }
        assert(t.push(s.last()) =~= s);
    }
}

impl Default for SyncPlanner {
    /// A planner; it holds no state.
    fn default() -> (p: Self) {
        SyncPlanner
    }
}

} // verus!
