//! Completing missing baselines from the trusted cloud tree and the local
//! stable identities, only where path, type and file id prove one file.
//!
//! The caller reads identities and metadata from the file system and writes
//! the baselines; these functions decide.

use vstd::prelude::*;
use crate::action_filters::{blocked_identity, is_blocked_path_identity};
use crate::error::AppError;
use crate::hydration::{file_name, file_name_of};
use crate::model::{
    opt_str, DriveFile, DriveFileView, LocalFileEntry, LocalFileEntryView, SyncItem, CLOUD_ONLY, DELETED, SYNCED,
};
use crate::path_map::PathMap;
use crate::path_recovery::BlockedPathChange;
use crate::planner::{DbSnapshotEntry, DbSnapshotEntryView};
use crate::paths::str_equal;
use crate::text::{concat, push_str};

verus! {

/// First step of reconciling one local entry.
pub enum ReconcileStart {
    /// Leave the entry alone.
    Skip,
    /// The local folder must carry the baseline's id `file_id` (the caller
    /// checks and binds it); then revive the baseline with this status, if any.
    VerifyFolder { file_id: String, revive: Option<i32> },
    /// The baseline exists: revive it with this status, if any.
    Known { revive: Option<i32> },
    /// A folder the trusted tree holds at the same path but without a
    /// baseline: bind the local folder to the cloud id, then write
    /// [`recovered_folder_item`].
    RecoverFolder,
    /// Read the entry's stable id and continue with [`reconcile_identity`].
    ReadIdentity,
}

/// Mathematical view of [`ReconcileStart`].
pub enum ReconcileStartView {
    Skip,
    VerifyFolder { file_id: Seq<char>, revive: Option<i32> },
    Known { revive: Option<i32> },
    RecoverFolder,
    ReadIdentity,
}

impl View for ReconcileStart {
    type V = ReconcileStartView;

    open spec fn view(&self) -> ReconcileStartView {
        match self {
            ReconcileStart::Skip => ReconcileStartView::Skip,
            ReconcileStart::VerifyFolder { file_id, revive } =>
                ReconcileStartView::VerifyFolder { file_id: file_id@, revive: *revive },
            ReconcileStart::Known { revive } => ReconcileStartView::Known { revive: *revive },
            ReconcileStart::RecoverFolder => ReconcileStartView::RecoverFolder,
            ReconcileStart::ReadIdentity => ReconcileStartView::ReadIdentity,
        }
    }
}

/// The status a deleted baseline gets back when its path holds content again.
pub open spec fn revival(entry: LocalFileEntryView, db: DbSnapshotEntryView) -> Option<i32> {
    if db.status == DELETED {
        Some(if entry.is_placeholder { CLOUD_ONLY } else { SYNCED })
    } else {
        None
    }
}

pub open spec fn msg_folder_identity(rel: Seq<char>) -> Seq<char> {
    "目录 "@ + rel + " 的数据库与云端稳定身份不一致，拒绝继续规划"@
}

/// First step of reconciling the local entry at `rel`.
pub open spec fn start_for(
    rel: Seq<char>,
    entry: LocalFileEntryView,
    db: Option<DbSnapshotEntryView>,
    cloud: Map<Seq<char>, DriveFileView>,
    blocked: Seq<BlockedPathChange>,
) -> Result<ReconcileStartView, Seq<char>> {
    if blocked_identity(Some(rel), None, blocked) {
        Ok(ReconcileStartView::Skip)
    } else {
        match db {
            Some(d) => if entry.is_folder && d.is_folder {
                if cloud.contains_key(rel) && (!cloud[rel].is_folder() || cloud[rel].id != d.file_id) {
                    Err(msg_folder_identity(rel))
                } else {
                    Ok(ReconcileStartView::VerifyFolder { file_id: d.file_id, revive: revival(entry, d) })
                }
            } else {
                Ok(ReconcileStartView::Known { revive: revival(entry, d) })
            },
            None => if entry.is_folder && cloud.contains_key(rel) && cloud[rel].is_folder() {
                Ok(ReconcileStartView::RecoverFolder)
            } else {
                Ok(ReconcileStartView::ReadIdentity)
            },
        }
    }
}

fn revival_of(entry: &LocalFileEntry, db: &DbSnapshotEntry) -> (r: Option<i32>)
    ensures
        r == revival(entry@, db@),
{
    if db.status == DELETED {
        Some(if entry.is_placeholder { CLOUD_ONLY } else { SYNCED })
    } else {
        None
    }
}

/// First step of reconciling the local entry at `rel` with its baseline (if
/// any), the trusted cloud tree and the unsettled path changes.
pub fn reconcile_start(
    rel: &str,
    entry: &LocalFileEntry,
    db: Option<&DbSnapshotEntry>,
    cloud: &PathMap<DriveFile>,
    blocked_changes: &Vec<BlockedPathChange>,
) -> (r: Result<ReconcileStart, AppError>)
    requires
        cloud.wf(),
    ensures
        match r {
            Ok(s) => start_for(rel@, entry@, match db { Some(d) => Some(d@), None => None },
                cloud.as_map(), blocked_changes@) == Ok::<ReconcileStartView, Seq<char>>(s@),
            Err(e) => e is Generic && start_for(rel@, entry@, match db { Some(d) => Some(d@), None => None },
                cloud.as_map(), blocked_changes@) == Err::<ReconcileStartView, Seq<char>>(e.message_view()),
        },
{
    if is_blocked_path_identity(Some(rel), None, blocked_changes) {
        return Ok(ReconcileStart::Skip);
    }
    match db {
        Some(d) => {
            if entry.is_folder && d.is_folder {
                if let Some(c) = cloud.get(rel) {
                    if !c.is_folder() || !str_equal(c.id.as_str(), d.file_id.as_str()) {
                        let mut m = concat("目录 ", rel);
                        push_str(&mut m, " 的数据库与云端稳定身份不一致，拒绝继续规划");
                        return Err(AppError::generic(m.as_str()));
                    }
                }
                Ok(ReconcileStart::VerifyFolder { file_id: d.file_id.clone(), revive: revival_of(entry, d) })
            } else {
                Ok(ReconcileStart::Known { revive: revival_of(entry, d) })
            }
        },
        None => {
            if entry.is_folder {
                if let Some(c) = cloud.get(rel) {
                    if c.is_folder() {
                        return Ok(ReconcileStart::RecoverFolder);
                    }
                }
            }
            Ok(ReconcileStart::ReadIdentity)
        },
    }
}

/// The baseline of a folder recovered from the trusted tree: the cloud
/// folder's identity with the local modification time and size.
pub open spec fn recovered_folder(item: SyncItem, rel: Seq<char>, entry: LocalFileEntryView, folder: DriveFileView, len: u64, now_ms: i64) -> bool {
    &&& item.file_id@ == folder.id
    &&& item.local_path@ == rel
    &&& opt_str(item.parent_folder_id) == folder.first_parent()
    &&& item.name@ == folder.name
    &&& item.is_folder
    &&& item.size == folder.size
    &&& item.local_size == Some(len as i64)
    &&& item.sha256 is None
    &&& item.local_mtime == Some(entry.mtime)
    &&& item.cloud_edited_time == folder.edited_time
    &&& item.last_sync_time == Some(now_ms)
    &&& item.status == SYNCED
    &&& item.error_message is None
}

/// The baseline of a folder recovered from the trusted tree, given the size
/// `len` read from the local folder.
pub fn recovered_folder_item(rel: &str, entry: &LocalFileEntry, folder: &DriveFile, len: u64, now_ms: i64) -> (item: SyncItem)
    ensures
        recovered_folder(item, rel@, entry@, folder@, len, now_ms),
{
    SyncItem {
        file_id: folder.id.clone(),
        local_path: rel.to_owned(),
        parent_folder_id: folder.first_parent(),
        name: folder.name.clone(),
        is_folder: true,
        size: folder.size,
        local_size: Some(len as i64),
        sha256: None,
        local_mtime: Some(entry.mtime),
        cloud_edited_time: folder.edited_time,
        last_sync_time: Some(now_ms),
        status: SYNCED,
        error_message: None,
    }
}

/// Step after reading an entry's stable id.
pub enum IdentityStep {
    /// Leave the entry alone.
    Skip,
    /// Another baseline of the id (at `previous` in the records) exists: if
    /// its local path is gone, the caller migrates it with [`migrated_item`];
    /// otherwise the entry is a copy and left alone.
    CheckOldPath { previous: usize },
    /// Write this baseline.
    Insert(SyncItem),
}

/// The first record of `fid` at another path than `rel`.
pub open spec fn previous_index(records: Seq<SyncItem>, fid: Seq<char>, rel: Seq<char>) -> Option<int> {
    if exists|i: int| 0 <= i < records.len() && records[i].file_id@ == fid && records[i].local_path@ != rel {
        Some(choose|i: int| 0 <= i < records.len() && records[i].file_id@ == fid && records[i].local_path@ != rel
            && forall|j: int| 0 <= j < i ==> !(records[j].file_id@ == fid && records[j].local_path@ != rel))
    } else {
        None
    }
}

/// The baseline written for a local entry whose stable id the trusted tree
/// confirms at the same path.
pub open spec fn identified(item: SyncItem, rel: Seq<char>, entry: LocalFileEntryView, fid: Seq<char>, now_ms: i64) -> bool {
    &&& item.file_id@ == fid
    &&& item.local_path@ == rel
    &&& item.parent_folder_id is None
    &&& item.name@ == file_name_of(entry.relative_path)
    &&& item.is_folder == entry.is_folder
    &&& item.size == 0
    &&& item.local_size == if entry.is_placeholder { None } else { Some(entry.size as i64) }
    &&& item.sha256 is None
    &&& item.local_mtime == Some(entry.mtime)
    &&& item.cloud_edited_time is None
    &&& item.last_sync_time == Some(now_ms)
    &&& item.status == if entry.is_placeholder { CLOUD_ONLY } else { SYNCED }
    &&& item.error_message is None
}

/// Whether the identity of the entry at `rel` settles nothing: no id, an id
/// of an unsettled change, or a trusted tree without the same id at `rel`.
pub open spec fn identity_skipped(rel: Seq<char>, fid: Seq<char>, cloud: Map<Seq<char>, DriveFileView>, blocked: Seq<BlockedPathChange>) -> bool {
    fid.len() == 0 || blocked_identity(Some(rel), Some(fid), blocked)
        || !cloud.contains_key(rel) || cloud[rel].id != fid
}

fn find_previous(records: &Vec<SyncItem>, fid: &str, rel: &str) -> (r: Option<usize>)
    ensures
        match r {
            Some(i) => i < records@.len() && previous_index(records@, fid@, rel@) == Some(i as int),
            None => previous_index(records@, fid@, rel@) is None,
        },
{
    let mut i: usize = 0;
    while i < records.len()
        invariant
            i <= records@.len(),
            forall|j: int| 0 <= j < i ==> !(records@[j].file_id@ == fid@ && records@[j].local_path@ != rel@),
        decreases records@.len() - i,
    {
        if str_equal(records[i].file_id.as_str(), fid) && !str_equal(records[i].local_path.as_str(), rel) {
            proof {
                assert(records@[i as int].file_id@ == fid@ && records@[i as int].local_path@ != rel@
                    && forall|j: int| 0 <= j < i as int ==> !(records@[j].file_id@ == fid@ && records@[j].local_path@ != rel@));
                let w = choose|w: int| 0 <= w < records@.len() && records@[w].file_id@ == fid@
                    && records@[w].local_path@ != rel@
                    && forall|j: int| 0 <= j < w ==> !(records@[j].file_id@ == fid@ && records@[j].local_path@ != rel@);
                assert(w == i as int) by {
                    if w > i as int {
                        assert(!(records@[i as int].file_id@ == fid@ && records@[i as int].local_path@ != rel@));
                    }
                }
            }
            return Some(i);
        }
        i = i + 1;
    }
    None
}

/// Decide what the stable id `fid` read from the local entry at `rel`
/// settles, against the trusted tree, the unsettled changes and the durable
/// baselines `records`.
pub fn reconcile_identity(
    rel: &str,
    entry: &LocalFileEntry,
    fid: &str,
    cloud: &PathMap<DriveFile>,
    blocked_changes: &Vec<BlockedPathChange>,
    records: &Vec<SyncItem>,
    now_ms: i64,
) -> (r: IdentityStep)
    requires
        cloud.wf(),
    ensures
        identity_skipped(rel@, fid@, cloud.as_map(), blocked_changes@) ==> r is Skip,
        !identity_skipped(rel@, fid@, cloud.as_map(), blocked_changes@) ==> match previous_index(records@, fid@, rel@) {
            Some(i) => r == IdentityStep::CheckOldPath { previous: i as usize } && i < records@.len(),
            None => r matches IdentityStep::Insert(item) && identified(item, rel@, entry@, fid@, now_ms),
        },
{
    if fid.unicode_len() == 0 {
        return IdentityStep::Skip;
    }
    if is_blocked_path_identity(Some(rel), Some(fid), blocked_changes) {
        return IdentityStep::Skip;
    }
    match cloud.get(rel) {
        None => return IdentityStep::Skip,
        Some(c) => if !str_equal(c.id.as_str(), fid) {
            return IdentityStep::Skip;
        },
    }
    if let Some(i) = find_previous(records, fid, rel) {
        return IdentityStep::CheckOldPath { previous: i };
    }
    let status = if entry.is_placeholder { CLOUD_ONLY } else { SYNCED };
    IdentityStep::Insert(SyncItem {
        file_id: fid.to_owned(),
        local_path: rel.to_owned(),
        parent_folder_id: None,
        name: file_name(entry.relative_path.as_str()),
        is_folder: entry.is_folder,
        size: 0,
        local_size: if entry.is_placeholder { None } else { Some(entry.size as i64) },
        sha256: None,
        local_mtime: Some(entry.mtime),
        cloud_edited_time: None,
        last_sync_time: Some(now_ms),
        status,
        error_message: None,
    })
}

/// The baseline of a confirmed cloud move recovered at `rel`: the cloud
/// file's identity with the content baseline it had at its old path.
pub open spec fn migrated(item: SyncItem, rel: Seq<char>, file: DriveFileView, previous: SyncItem) -> bool {
    &&& item.file_id == previous.file_id
    &&& item.local_path@ == rel
    &&& opt_str(item.parent_folder_id) == file.first_parent()
    &&& item.name@ == file.name
    &&& item.is_folder == previous.is_folder
    &&& item.size == file.size
    &&& item.local_size == previous.local_size
    &&& item.sha256 == previous.sha256
    &&& item.local_mtime == previous.local_mtime
    &&& item.cloud_edited_time == file.edited_time
    &&& item.last_sync_time == previous.last_sync_time
    &&& item.status == previous.status
    &&& item.error_message == previous.error_message
}

/// The baseline of a confirmed cloud move recovered at `rel`, once the old
/// local path is proven gone. The caller removes the rows of the id at other
/// paths and writes this one in one transaction.
pub fn migrated_item(rel: &str, file: &DriveFile, previous: &SyncItem) -> (item: SyncItem)
    ensures
        migrated(item, rel@, file@, *previous),
{
    SyncItem {
        file_id: previous.file_id.clone(),
        local_path: rel.to_owned(),
        parent_folder_id: file.first_parent(),
        name: file.name.clone(),
        is_folder: previous.is_folder,
        size: file.size,
        local_size: previous.local_size,
        sha256: previous.sha256.clone(),
        local_mtime: previous.local_mtime,
        cloud_edited_time: file.edited_time,
        last_sync_time: previous.last_sync_time,
        status: previous.status,
        error_message: previous.error_message.clone(),
    }
}

/// How a local folder's stable id stands against the id a baseline or the
/// trusted tree expects.
#[derive(Debug, Clone, Copy, PartialEq, Eq, Structural)]
pub enum FolderIdentity {
    /// It carries the expected id.
    Matches,
    /// It carries none: bind the expected id to it.
    Bind,
    /// It carries another id: the folder is another one; refuse.
    Conflicts,
}

/// Compare the id a local folder carries (if any) with the expected one.
pub fn folder_identity(existing: Option<&str>, expected: &str) -> (r: FolderIdentity)
    ensures
        r == match existing {
            None => FolderIdentity::Bind,
            Some(e) => if e@ == expected@ { FolderIdentity::Matches } else { FolderIdentity::Conflicts },
        },
{
    match existing {
        None => FolderIdentity::Bind,
        Some(e) => if str_equal(e, expected) { FolderIdentity::Matches } else { FolderIdentity::Conflicts },
    }
}

} // verus!
