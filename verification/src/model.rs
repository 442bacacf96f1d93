//! The records that the synchroniser plans over: cloud files, local entries,
//! database baselines and the actions it emits.

use vstd::prelude::*;

verus! {

/// Baseline status: content in sync.
pub const SYNCED: i32 = 0;
/// Baseline status: a transfer is under way.
pub const SYNCING: i32 = 1;
/// Baseline status: the last transfer failed.
pub const FAILED: i32 = 2;
/// Baseline status: deleted by the user (a tombstone).
pub const DELETED: i32 = 3;
/// Baseline status: the content lives in the cloud only (a placeholder).
pub const CLOUD_ONLY: i32 = 4;
/// Baseline status: both sides changed; a conflict copy was made.
pub const CONFLICT: i32 = 5;

/// Characters of the prefix of the placeholder fileId that a baseline carries
/// before its first upload has produced a real cloud fileId.
pub open spec fn pending_prefix() -> Seq<char> {
    seq!['p', 'e', 'n', 'd', 'i', 'n', 'g', ':']
}

/// Whether a fileId is a pending placeholder id.
pub fn is_pending_file_id(file_id: &str) -> (b: bool)
    ensures
        b == crate::paths::has_prefix(file_id@, pending_prefix()),
{
    proof {
        reveal_strlit("pending:");
        assert("pending:"@ =~= pending_prefix());
    }
    crate::paths::starts_with(file_id, "pending:")
}

/// Optional string, as characters.
pub open spec fn opt_str(o: Option<String>) -> Option<Seq<char>> {
    match o {
        Some(s) => Some(s@),
        None => None,
    }
}

/// A vector of strings, as a sequence of character sequences.
pub open spec fn strs(v: Vec<String>) -> Seq<Seq<char>> {
    v@.map_values(|s: String| s@)
}

/// Optional vector of strings, as sequences.
pub open spec fn opt_strs(o: Option<Vec<String>>) -> Option<Seq<Seq<char>>> {
    match o {
        Some(v) => Some(strs(v)),
        None => None,
    }
}

/// Copy of an optional string.
pub fn clone_opt_string(o: &Option<String>) -> (r: Option<String>)
    ensures
        opt_str(r) == opt_str(*o),
{
    match o {
        Some(s) => Some(s.clone()),
        None => None,
    }
}

/// Copy of a vector of strings.
pub fn clone_strings(v: &Vec<String>) -> (r: Vec<String>)
    ensures
        strs(r) == strs(*v),
{
    let mut r: Vec<String> = Vec::new();
    let mut i: usize = 0;
    while i < v.len()
        invariant
            i <= v.len(),
            r@.len() == i,
            forall|j: int| 0 <= j < i ==> r@[j]@ == v@[j]@,
        decreases v.len() - i,
    {
        r.push(v[i].clone());
        i = i + 1;
    }
    assert(strs(r) =~= strs(*v));
    r
}

/// Kind of a cloud object.
#[derive(Debug, Clone, Copy, PartialEq, Eq, Structural)]
pub enum FileCategory {
    Unclassified,
    Folder,
    Document,
    Image,
    Video,
    Audio,
}

/// Metadata of a cloud file or folder. Times are milliseconds since the epoch.
#[derive(Debug)]
pub struct DriveFile {
    pub id: String,
    pub name: String,
    pub category: FileCategory,
    pub size: i64,
    pub parent_folder: Option<Vec<String>>,
    pub description: Option<String>,
    /// Creation time, milliseconds since the Unix epoch.
    pub created_time: Option<i64>,
    /// Last edit time, milliseconds since the Unix epoch.
    pub edited_time: Option<i64>,
    pub mime_type: Option<String>,
    pub content_hash: Option<String>,
    pub thumbnail_link: Option<String>,
}

/// Mathematical view of [`DriveFile`].
pub struct DriveFileView {
    pub id: Seq<char>,
    pub name: Seq<char>,
    pub category: FileCategory,
    pub size: i64,
    pub parent_folder: Option<Seq<Seq<char>>>,
    pub description: Option<Seq<char>>,
    pub created_time: Option<i64>,
    pub edited_time: Option<i64>,
    pub mime_type: Option<Seq<char>>,
    pub content_hash: Option<Seq<char>>,
    pub thumbnail_link: Option<Seq<char>>,
}

impl View for DriveFile {
    type V = DriveFileView;

    open spec fn view(&self) -> DriveFileView {
        DriveFileView {
            id: self.id@,
            name: self.name@,
            category: self.category,
            size: self.size,
            parent_folder: opt_strs(self.parent_folder),
            description: opt_str(self.description),
            created_time: self.created_time,
            edited_time: self.edited_time,
            mime_type: opt_str(self.mime_type),
            content_hash: opt_str(self.content_hash),
            thumbnail_link: opt_str(self.thumbnail_link),
        }
    }
}

impl DriveFileView {
    /// The object is a folder.
    pub open spec fn is_folder(self) -> bool {
        self.category == FileCategory::Folder
    }

    /// The first parent folder id, if any.
    pub open spec fn first_parent(self) -> Option<Seq<char>> {
        match self.parent_folder {
            Some(p) => if p.len() > 0 { Some(p[0]) } else { None },
            None => None,
        }
    }
}

impl DriveFile {
    /// Whether the object is a folder.
    pub fn is_folder(&self) -> (b: bool)
        ensures
            b == self@.is_folder(),
    {
        match self.category {
            FileCategory::Folder => true,
            _ => false,
        }
    }

    /// The first parent folder id, if any.
    pub fn first_parent(&self) -> (r: Option<String>)
        ensures
            opt_str(r) == self@.first_parent(),
    {
        match &self.parent_folder {
            Some(p) => if p.len() > 0 { Some(p[0].clone()) } else { None },
            None => None,
        }
    }

    /// A copy with the same view.
    pub fn duplicate(&self) -> (r: DriveFile)
        ensures
            r@ == self@,
    {
        let parent_folder = match &self.parent_folder {
            Some(p) => Some(clone_strings(p)),
            None => None,
        };
        DriveFile {
            id: self.id.clone(),
            name: self.name.clone(),
            category: self.category,
            size: self.size,
            parent_folder,
            description: clone_opt_string(&self.description),
            created_time: self.created_time,
            edited_time: self.edited_time,
            mime_type: clone_opt_string(&self.mime_type),
            content_hash: clone_opt_string(&self.content_hash),
            thumbnail_link: clone_opt_string(&self.thumbnail_link),
        }
    }
}

impl Default for DriveFile {
    /// An unclassified file with empty id and name and no metadata.
    fn default() -> (f: Self)
        ensures
            f@.id.len() == 0,
            f@.name.len() == 0,
            f.category == FileCategory::Unclassified,
            f.size == 0,
            f.parent_folder is None,
            f.description is None,
            f.created_time is None,
            f.edited_time is None,
            f.mime_type is None,
            f.content_hash is None,
            f.thumbnail_link is None,
    {
        DriveFile {
            id: String::new(),
            name: String::new(),
            category: FileCategory::Unclassified,
            size: 0,
            parent_folder: None,
            description: None,
            created_time: None,
            edited_time: None,
            mime_type: None,
            content_hash: None,
            thumbnail_link: None,
        }
    }
}

/// A local file-system entry under the mount root.
#[derive(Debug)]
pub struct LocalFileEntry {
    pub relative_path: String,
    pub absolute_path: String,
    pub size: u64,
    pub mtime: i64,
    pub is_folder: bool,
    pub is_placeholder: bool,
}

/// Mathematical view of [`LocalFileEntry`].
pub struct LocalFileEntryView {
    pub relative_path: Seq<char>,
    pub absolute_path: Seq<char>,
    pub size: u64,
    pub mtime: i64,
    pub is_folder: bool,
    pub is_placeholder: bool,
}

impl View for LocalFileEntry {
    type V = LocalFileEntryView;

    open spec fn view(&self) -> LocalFileEntryView {
        LocalFileEntryView {
            relative_path: self.relative_path@,
            absolute_path: self.absolute_path@,
            size: self.size,
            mtime: self.mtime,
            is_folder: self.is_folder,
            is_placeholder: self.is_placeholder,
        }
    }
}

/// Database baseline of one synchronised item.
#[derive(Debug)]
pub struct SyncItem {
    pub file_id: String,
    pub local_path: String,
    pub parent_folder_id: Option<String>,
    pub name: String,
    pub is_folder: bool,
    pub size: i64,
    pub local_size: Option<i64>,
    pub sha256: Option<String>,
    pub local_mtime: Option<i64>,
    pub cloud_edited_time: Option<i64>,
    pub last_sync_time: Option<i64>,
    pub status: i32,
    pub error_message: Option<String>,
}

impl SyncItem {
    /// An equal copy.
    pub fn duplicate(&self) -> (r: SyncItem)
        ensures
            r == *self,
    {
        SyncItem {
            file_id: self.file_id.clone(),
            local_path: self.local_path.clone(),
            parent_folder_id: self.parent_folder_id.clone(),
            name: self.name.clone(),
            is_folder: self.is_folder,
            size: self.size,
            local_size: self.local_size,
            sha256: self.sha256.clone(),
            local_mtime: self.local_mtime,
            cloud_edited_time: self.cloud_edited_time,
            last_sync_time: self.last_sync_time,
            status: self.status,
            error_message: self.error_message.clone(),
        }
    }
}

impl View for SyncItem {
    type V = SyncItem;

    open spec fn view(&self) -> SyncItem {
        *self
    }
}

/// What the synchroniser does for one path.
#[derive(Debug, Clone, Copy, PartialEq, Eq, Structural)]
pub enum SyncActionType {
    Upload,
    Download,
    CreatePlaceholder,
    CreateFolder,
    DeleteFromLocal,
    DeleteFromCloud,
    MoveInCloud,
    CreateConflictCopy,
    BackupBeforeCloudDelete,
    Skip,
}

/// One planned synchronisation step.
#[derive(Debug)]
pub struct SyncAction {
    pub action_type: SyncActionType,
    pub relative_path: Option<String>,
    pub file_id: Option<String>,
    pub parent_file_id: Option<String>,
    pub local_path: Option<String>,
    pub cloud_file: Option<DriveFile>,
    pub reason: Option<String>,
}

/// Mathematical view of [`SyncAction`].
pub struct SyncActionView {
    pub action_type: SyncActionType,
    pub relative_path: Option<Seq<char>>,
    pub file_id: Option<Seq<char>>,
    pub parent_file_id: Option<Seq<char>>,
    pub local_path: Option<Seq<char>>,
    pub cloud_file: Option<DriveFileView>,
    pub reason: Option<Seq<char>>,
}

/// Optional cloud file, as a view.
pub open spec fn opt_file(o: Option<DriveFile>) -> Option<DriveFileView> {
    match o {
        Some(f) => Some(f@),
        None => None,
    }
}

impl View for SyncAction {
    type V = SyncActionView;

    open spec fn view(&self) -> SyncActionView {
        SyncActionView {
            action_type: self.action_type,
            relative_path: opt_str(self.relative_path),
            file_id: opt_str(self.file_id),
            parent_file_id: opt_str(self.parent_file_id),
            local_path: opt_str(self.local_path),
            cloud_file: opt_file(self.cloud_file),
            reason: opt_str(self.reason),
        }
    }
}

impl SyncAction {
    /// A copy with the same view.
    pub fn duplicate(&self) -> (r: SyncAction)
        ensures
            r@ == self@,
    {
        SyncAction {
            action_type: self.action_type,
            relative_path: clone_opt_string(&self.relative_path),
            file_id: clone_opt_string(&self.file_id),
            parent_file_id: clone_opt_string(&self.parent_file_id),
            local_path: clone_opt_string(&self.local_path),
            cloud_file: match &self.cloud_file {
                Some(f) => Some(f.duplicate()),
                None => None,
            },
            reason: clone_opt_string(&self.reason),
        }
    }
}

/// Views of a sequence of actions.
pub open spec fn actions_view(v: Seq<SyncAction>) -> Seq<SyncActionView> {
    v.map_values(|a: SyncAction| a@)
}

} // verus!
