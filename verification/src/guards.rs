//! Last checks before destructive steps: freeing local space, deleting in the
//! cloud, and loading the baseline snapshot.

use vstd::prelude::*;
use crate::error::AppError;
use crate::model::{opt_str, DriveFile, DriveFileView, SyncAction, SyncActionType, SyncItem, SYNCED};
use crate::path_map::PathMap;
use crate::planner::DbSnapshotEntry;
use crate::paths::str_equal;
use crate::text::{concat, decimal, push_decimal, push_str};
use crate::transfer::{state_of_code, TransferState, TransferTask};

verus! {

/// Whether a local file may be turned back into a placeholder.
#[derive(Debug, Clone, Copy, PartialEq, Eq, Structural)]
pub enum FreeUpCheckResult {
    /// The cloud holds the same version: freeing loses nothing.
    Safe,
    /// The file is not (or not provably) synchronised.
    NotSynced,
    /// The trusted cloud tree does not hold the file under this id.
    NotInCloud,
}

/// A task that still works on a path: its state is known and not final.
pub open spec fn task_still_running(t: TransferTask, path: Seq<char>) -> bool {
    opt_str(t.relative_path) == Some(path) && match state_of_code(t.state) {
        Some(s) => s != TransferState::Completed && s != TransferState::Failed && s != TransferState::Canceled,
        None => false,
    }
}

/// Some listed task still works on `path` (none when the list is unknown).
pub open spec fn some_task_running(tasks: Option<Seq<TransferTask>>, path: Seq<char>) -> bool {
    match tasks {
        Some(ts) => running_on(ts, path),
        None => false,
    }
}

/// Some task of `ts` still works on `path`.
pub open spec fn running_on(ts: Seq<TransferTask>, path: Seq<char>) -> bool {
    exists|k: int| 0 <= k < ts.len() && task_still_running(#[trigger] ts[k], path)
}

/// Local metadata of a file: modification time (if known) and size.
#[derive(Debug, Clone, Copy)]
pub struct LocalMeta {
    pub mtime_ms: Option<i64>,
    pub len: u64,
}

/// Whether freeing the file at `path` with cloud id `file_id` is safe: the
/// trusted tree holds the id at the path, no live task works on the path, the
/// single baseline of the id is synchronised at the path, and the local file
/// still matches it. `tasks` is `None` when the task list could not be read
/// (no task then counts as live); `record` is the baseline found by id (`None`
/// when there is none or it could not be read); `local` is the file's
/// metadata when it could be read.
pub open spec fn free_up_verdict(
    trusted: bool,
    cloud: Map<Seq<char>, DriveFileView>,
    path: Seq<char>,
    file_id: Seq<char>,
    tasks: Option<Seq<TransferTask>>,
    record: Option<SyncItem>,
    local: Option<LocalMeta>,
) -> FreeUpCheckResult {
    if !trusted {
        FreeUpCheckResult::NotSynced
    } else if !(cloud.contains_key(path) && cloud[path].id == file_id) {
        FreeUpCheckResult::NotInCloud
    } else if some_task_running(tasks, path) {
        FreeUpCheckResult::NotSynced
    } else {
        match record {
            None => FreeUpCheckResult::NotSynced,
            Some(r) => if r.local_path@ != path || r.status != SYNCED {
                FreeUpCheckResult::NotSynced
            } else {
                match local {
                    None => FreeUpCheckResult::NotSynced,
                    Some(m) => if r.local_mtime != m.mtime_ms || r.local_size != Some(m.len as i64) {
                        FreeUpCheckResult::NotSynced
                    } else {
                        FreeUpCheckResult::Safe
                    },
                }
            },
        }
    }
}

fn any_task_running(tasks: &Vec<TransferTask>, path: &str) -> (b: bool)
    ensures
        b == running_on(tasks@, path@),
{
    let mut k: usize = 0;
    while k < tasks.len()
        invariant
            k <= tasks@.len(),
            forall|j: int| 0 <= j < k ==> !task_still_running(#[trigger] tasks@[j], path@),
        decreases tasks@.len() - k,
    {
        let t = &tasks[k];
        let same = match &t.relative_path {
            Some(p) => str_equal(p.as_str(), path),
            None => false,
        };
        if same {
            let live = match t.state_kind() {
                Some(TransferState::Completed) | Some(TransferState::Failed) | Some(TransferState::Canceled) => false,
                Some(_) => true,
                None => false,
            };
            if live {
                assert(task_still_running(tasks@[k as int], path@));
                return true;
            }
        }
        k = k + 1;
    }
    false
}

/// Whether freeing the file at `path` with cloud id `file_id` is safe.
pub fn check_free_up(
    trusted: bool,
    cloud: &PathMap<DriveFile>,
    path: &str,
    file_id: &str,
    tasks: Option<&Vec<TransferTask>>,
    record: Option<&SyncItem>,
    local: Option<LocalMeta>,
) -> (r: FreeUpCheckResult)
    requires
        cloud.wf(),
    ensures
        r == free_up_verdict(trusted, cloud.as_map(), path@, file_id@,
            match tasks { Some(t) => Some(t@), None => None },
            match record { Some(x) => Some(*x), None => None }, local),
{
    if !trusted {
        return FreeUpCheckResult::NotSynced;
    }
    match cloud.get(path) {
        Some(f) => if !str_equal(f.id.as_str(), file_id) {
            return FreeUpCheckResult::NotInCloud;
        },
        None => return FreeUpCheckResult::NotInCloud,
    }
    if let Some(ts) = tasks {
        if any_task_running(ts, path) {
            return FreeUpCheckResult::NotSynced;
        }
    }
    match record {
        None => FreeUpCheckResult::NotSynced,
        Some(r) => {
            if !str_equal(r.local_path.as_str(), path) || r.status != SYNCED {
                return FreeUpCheckResult::NotSynced;
            }
            match local {
                None => FreeUpCheckResult::NotSynced,
                Some(m) => if r.local_mtime != m.mtime_ms || r.local_size != Some(m.len as i64) {
                    FreeUpCheckResult::NotSynced
                } else {
                    FreeUpCheckResult::Safe
                },
            }
        },
    }
}

/// What a cloud deletion finds at its local path just before it runs.
pub enum LocalPresence {
    /// Nothing: the deletion is proven.
    Absent,
    /// An entry of `size` bytes; `placeholder` when it is an empty placeholder.
    Present { size: u64, placeholder: bool },
    /// The path could not be examined; the text describes why.
    Unreadable(String),
}

/// The action after the local check of a cloud deletion: an entry with
/// content, or one that cannot be examined, turns the deletion into a skip.
pub open spec fn guarded_delete(a: crate::model::SyncActionView, presence: LocalPresence) -> crate::model::SyncActionView {
    match presence {
        LocalPresence::Absent => a,
        LocalPresence::Present { size, placeholder } => if size == 0 && placeholder {
            a
        } else {
            crate::model::SyncActionView {
                action_type: SyncActionType::Skip,
                reason: Some("防误删：本地文件实际存在（"@ + decimal(size as nat) + " 字节），跳过 DeleteFromCloud"@),
                ..a
            }
        },
        LocalPresence::Unreadable(e) => crate::model::SyncActionView {
            action_type: SyncActionType::Skip,
            reason: Some("本地路径访问异常，无法证明文件已删除："@ + e@),
            ..a
        },
    }
}

/// Check a planned cloud deletion against what its local path holds.
pub fn guard_cloud_delete(action: &mut SyncAction, presence: LocalPresence)
    requires
        old(action).action_type == SyncActionType::DeleteFromCloud,
    ensures
        final(action)@ == guarded_delete(old(action)@, presence),
{
    match presence {
        LocalPresence::Absent => {},
        LocalPresence::Present { size, placeholder } => {
            if !(size == 0 && placeholder) {
                let mut reason = "防误删：本地文件实际存在（".to_owned();
                push_decimal(&mut reason, size);
                push_str(&mut reason, " 字节），跳过 DeleteFromCloud");
                action.action_type = SyncActionType::Skip;
                action.reason = Some(reason);
            }
        },
        LocalPresence::Unreadable(e) => {
            action.action_type = SyncActionType::Skip;
            action.reason = Some(concat("本地路径访问异常，无法证明文件已删除：", e.as_str()));
        },
    }
}

/// The baseline snapshot entry of a record.
pub open spec fn snapshot_entry_of(r: SyncItem) -> crate::planner::DbSnapshotEntryView {
    crate::planner::DbSnapshotEntryView {
        file_id: r.file_id@,
        local_mtime: r.local_mtime,
        local_size: r.local_size,
        cloud_edited_time: r.cloud_edited_time,
        status: r.status,
        is_folder: r.is_folder,
    }
}

/// Two records share a local path.
pub open spec fn has_duplicate_path(records: Seq<SyncItem>) -> bool {
    exists|i: int, j: int| 0 <= i < j < records.len() && records[i].local_path@ == records[j].local_path@
}

/// The record at `j` repeats the local path of an earlier one.
pub open spec fn repeats_earlier(records: Seq<SyncItem>, j: int) -> bool {
    exists|i: int| 0 <= i < j && records[i].local_path@ == records[j].local_path@
}

/// The first local path that an earlier record already has.
pub open spec fn first_duplicate(records: Seq<SyncItem>) -> Seq<char> {
    let j = choose|j: int| 0 <= j < records.len() && repeats_earlier(records, j)
        && forall|jj: int| 0 <= jj < j ==> !#[trigger] repeats_earlier(records, jj);
    records[j].local_path@
}

pub open spec fn msg_duplicate_path(path: Seq<char>) -> Seq<char> {
    "同步基线存在重复本地路径，拒绝继续规划："@ + path
}

/// Build the baseline snapshot by local path; a path held by two records is
/// refused.
pub fn load_db_snapshot(records: &Vec<SyncItem>) -> (r: Result<PathMap<DbSnapshotEntry>, AppError>)
    ensures
        match r {
            Ok(m) => !has_duplicate_path(records@) && m.wf()
                && m.keys() == records@.map_values(|x: SyncItem| x.local_path@)
                && forall|i: int| 0 <= i < records@.len() ==>
                    m.as_map()[#[trigger] records@[i].local_path@] == snapshot_entry_of(records@[i]),
            Err(e) => has_duplicate_path(records@) && e is Generic
                && e.message_view() == msg_duplicate_path(first_duplicate(records@)),
        },
{
    let mut m: PathMap<DbSnapshotEntry> = PathMap::new();
    let mut i: usize = 0;
    while i < records.len()
        invariant
            m.wf(),
            i <= records@.len(),
            !has_duplicate_path(records@.take(i as int)),
            m.keys() == records@.take(i as int).map_values(|x: SyncItem| x.local_path@),
            forall|j: int| 0 <= j < i ==> m.as_map()[#[trigger] records@[j].local_path@] == snapshot_entry_of(records@[j]),
        decreases records@.len() - i,
    {
        let rec = &records[i];
        let ghost prefix = records@.take(i as int);
        if m.contains_key(rec.local_path.as_str()) {
            proof {
                let k = choose|k: int| 0 <= k < m.keys().len() && m.keys()[k] == rec.local_path@;
                assert(records@[k].local_path@ == records@[i as int].local_path@);
                assert(has_duplicate_path(records@));
                assert(repeats_earlier(records@, i as int));
                assert forall|jj: int| 0 <= jj < i as int implies !#[trigger] repeats_earlier(records@, jj) by {
                    if repeats_earlier(records@, jj) {
                        let ii = choose|ii: int| 0 <= ii < jj && records@[ii].local_path@ == records@[jj].local_path@;
                        assert(prefix[ii] == records@[ii] && prefix[jj] == records@[jj]);
                        assert(has_duplicate_path(prefix));
                    }
                }
                let j = choose|j: int| 0 <= j < records@.len() && repeats_earlier(records@, j)
                    && forall|jj: int| 0 <= jj < j ==> !#[trigger] repeats_earlier(records@, jj);
                assert(j == i as int) by {
                    if j > i as int {
                        assert(!repeats_earlier(records@, i as int));
                    }
                }
            }
            let msg = concat("同步基线存在重复本地路径，拒绝继续规划：", rec.local_path.as_str());
            return Err(AppError::generic(msg.as_str()));
        }
        let ghost before = m;
        m.insert(rec.local_path.clone(), DbSnapshotEntry {
            file_id: rec.file_id.clone(),
            local_mtime: rec.local_mtime,
            local_size: rec.local_size,
            cloud_edited_time: rec.cloud_edited_time,
            status: rec.status,
            is_folder: rec.is_folder,
        });
        proof {
            let next = records@.take(i as int + 1);
            assert(next =~= prefix.push(records@[i as int]));
            assert(next.map_values(|x: SyncItem| x.local_path@)
                =~= prefix.map_values(|x: SyncItem| x.local_path@).push(rec.local_path@));
            assert forall|a: int, b: int| 0 <= a < b < next.len() implies next[a].local_path@ != next[b].local_path@ by {
                if b == i as int {
                    assert(before.keys()[a] == next[a].local_path@);
                    assert(before.keys().contains(next[a].local_path@));
                } else {
                    assert(prefix[a] == next[a] && prefix[b] == next[b]);
                }
            }
            assert forall|j: int| 0 <= j < i + 1 implies m.as_map()[#[trigger] records@[j].local_path@]
                == snapshot_entry_of(records@[j]) by {
                if j < i as int {
                    assert(before.keys()[j] == records@[j].local_path@);
                    assert(records@[j].local_path@ != rec.local_path@);
                }
            }
        }
        i = i + 1;
    }
    assert(records@.take(records@.len() as int) =~= records@);
    Ok(m)
}

/// The first local path that an earlier record already has, if any.
pub fn repeated_local_path(records: &Vec<SyncItem>) -> (r: Option<String>)
    ensures
        r is None <==> !has_duplicate_path(records@),
        r matches Some(p) ==> p@ == first_duplicate(records@),
{
    let mut seen: PathMap<bool> = PathMap::new();
    let mut i: usize = 0;
    while i < records.len()
        invariant
            seen.wf(),
            i <= records@.len(),
            !has_duplicate_path(records@.take(i as int)),
            seen.keys() == records@.take(i as int).map_values(|x: SyncItem| x.local_path@),
        decreases records@.len() - i,
    {
        let rec = &records[i];
        let ghost prefix = records@.take(i as int);
        if seen.contains_key(rec.local_path.as_str()) {
            proof {
                let k = choose|k: int| 0 <= k < seen.keys().len() && seen.keys()[k] == rec.local_path@;
                assert(records@[k].local_path@ == records@[i as int].local_path@);
                assert(has_duplicate_path(records@));
                assert(repeats_earlier(records@, i as int));
                assert forall|jj: int| 0 <= jj < i as int implies !#[trigger] repeats_earlier(records@, jj) by {
                    if repeats_earlier(records@, jj) {
                        let ii = choose|ii: int| 0 <= ii < jj && records@[ii].local_path@ == records@[jj].local_path@;
                        assert(prefix[ii] == records@[ii] && prefix[jj] == records@[jj]);
                        assert(has_duplicate_path(prefix));
                    }
                }
                let j = choose|j: int| 0 <= j < records@.len() && repeats_earlier(records@, j)
                    && forall|jj: int| 0 <= jj < j ==> !#[trigger] repeats_earlier(records@, jj);
                assert(j == i as int) by {
                    if j > i as int {
                        assert(!repeats_earlier(records@, i as int));
                    }
                }
            }
            return Some(rec.local_path.clone());
        }
        let ghost before = seen;
        seen.insert(rec.local_path.clone(), true);
        proof {
            let next = records@.take(i as int + 1);
            assert(next =~= prefix.push(records@[i as int]));
            assert(next.map_values(|x: SyncItem| x.local_path@)
                =~= prefix.map_values(|x: SyncItem| x.local_path@).push(rec.local_path@));
            assert forall|a: int, b: int| 0 <= a < b < next.len() implies next[a].local_path@ != next[b].local_path@ by {
                if b == i as int {
                    assert(before.keys()[a] == next[a].local_path@);
                    assert(before.keys().contains(next[a].local_path@));
                } else {
                    assert(prefix[a] == next[a] && prefix[b] == next[b]);
                }
            }
        }
        i = i + 1;
    }
    assert(records@.take(records@.len() as int) =~= records@);
    None
}

} // verus!
