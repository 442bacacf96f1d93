//! Checks that executed actions make against the state they were planned
//! from: remote content hashes, upload sources, and local content about to be
//! deleted.

use vstd::prelude::*;
use crate::action_filters::{is_white_space, white_space};
use crate::error::AppError;
use crate::model::{opt_str, DriveFile, SyncItem};
use crate::path_map::PathMap;
use crate::transfer::TransferTask;

verus! {

/// Index of the first character that is not white space, from `i` on.
pub open spec fn first_non_ws(s: Seq<char>, i: int) -> int
    decreases s.len() - i,
{
    if i >= s.len() {
        s.len() as int
    } else if !white_space(s[i]) {
        i
    } else {
        first_non_ws(s, i + 1)
    }
}

/// One past the last character that is not white space, below `j`.
pub open spec fn end_non_ws(s: Seq<char>, j: int) -> int
    decreases j,
{
    if j <= 0 {
        0
    } else if !white_space(s[j - 1]) {
        j
    } else {
        end_non_ws(s, j - 1)
    }
}

/// `s` without leading and trailing white space.
pub open spec fn trimmed(s: Seq<char>) -> Seq<char> {
    let a = first_non_ws(s, 0);
    let b = end_non_ws(s, s.len() as int);
    if a < b { s.subrange(a, b) } else { Seq::empty() }
}

proof fn lemma_first_non_ws(s: Seq<char>, i: int)
    requires
        0 <= i <= s.len(),
    ensures
        i <= first_non_ws(s, i) <= s.len(),
    decreases s.len() - i,
{
    if i < s.len() && white_space(s[i]) {
        lemma_first_non_ws(s, i + 1);
    }
}

proof fn lemma_end_non_ws(s: Seq<char>, j: int)
    requires
        0 <= j <= s.len(),
    ensures
        0 <= end_non_ws(s, j) <= j,
    decreases j,
{
    if j > 0 && white_space(s[j - 1]) {
        lemma_end_non_ws(s, j - 1);
    }
}

/// `s` with leading and trailing white space removed.
pub fn trim(s: &str) -> (t: String)
    ensures
        t@ == trimmed(s@),
{
    let n = s.unicode_len();
    let mut a: usize = 0;
    while a < n && is_white_space(s.get_char(a))
        invariant
            n == s@.len(),
            a <= n,
            first_non_ws(s@, a as int) == first_non_ws(s@, 0),
        decreases n - a,
    {
        a = a + 1;
    }
    let mut b: usize = n;
    while b > 0 && is_white_space(s.get_char(b - 1))
        invariant
            n == s@.len(),
            b <= n,
            end_non_ws(s@, b as int) == end_non_ws(s@, n as int),
        decreases b,
    {
        b = b - 1;
    }
    if a < b {
        s.substring_char(a, b).to_owned()
    } else {
        String::new()
    }
}

/// An ASCII hexadecimal digit.
pub open spec fn hex_digit(c: char) -> bool {
    ('0' <= c && c <= '9') || ('a' <= c && c <= 'f') || ('A' <= c && c <= 'F')
}

/// A SHA-256 digest in hexadecimal.
pub open spec fn sha256_hex(h: Seq<char>) -> bool {
    h.len() == 64 && forall|i: int| 0 <= i < h.len() ==> hex_digit(#[trigger] h[i])
}

/// The cloud hash, trimmed, when it is a SHA-256 digest in hexadecimal.
pub open spec fn comparable_hash(f: DriveFile) -> Option<Seq<char>> {
    match opt_str(f.content_hash) {
        Some(h) => if sha256_hex(trimmed(h)) { Some(trimmed(h)) } else { None },
        None => None,
    }
}

/// The cloud hash that can be compared with a local SHA-256, if any.
pub fn comparable_sha256(file: &DriveFile) -> (r: Option<String>)
    ensures
        opt_str(r) == comparable_hash(*file),
{
    match &file.content_hash {
        None => None,
        Some(h) => {
            let t = trim(h.as_str());
            let n = t.unicode_len();
            if n != 64 {
                return None;
            }
            let mut i: usize = 0;
            while i < n
                invariant
                    n == t@.len(),
                    t@ == trimmed(h@),
                    file.content_hash == Some(*h),
                    i <= n,
                    forall|j: int| 0 <= j < i ==> hex_digit(#[trigger] t@[j]),
                decreases n - i,
            {
                let c = t.as_str().get_char(i);
                if !(('0' <= c && c <= '9') || ('a' <= c && c <= 'f') || ('A' <= c && c <= 'F')) {
                    assert(!hex_digit(t@[i as int]));
                    return None;
                }
                i = i + 1;
            }
            Some(t)
        },
    }
}

/// Code point of a character's ASCII lower case.
pub open spec fn ascii_lower(c: char) -> u32 {
    if 'A' <= c && c <= 'Z' { ((c as u32) + 32) as u32 } else { c as u32 }
}

/// Equality of two strings ignoring ASCII case.
pub open spec fn eq_ignore_ascii_case(a: Seq<char>, b: Seq<char>) -> bool {
    a.len() == b.len() && forall|i: int| 0 <= i < a.len() ==> ascii_lower(#[trigger] a[i]) == ascii_lower(b[i])
}

/// Code point of a character's ASCII lower case.
fn to_ascii_lower(c: char) -> (l: u32)
    ensures
        l == ascii_lower(c),
{
    if 'A' <= c && c <= 'Z' {
        (c as u32) + 32
    } else {
        c as u32
    }
}

/// Whether two strings are equal ignoring ASCII case.
pub fn str_eq_ignore_ascii_case(a: &str, b: &str) -> (r: bool)
    ensures
        r == eq_ignore_ascii_case(a@, b@),
{
    let n = a.unicode_len();
    if n != b.unicode_len() {
        return false;
    }
    let mut i: usize = 0;
    while i < n
        invariant
            n == a@.len(),
            n == b@.len(),
            i <= n,
            forall|j: int| 0 <= j < i ==> ascii_lower(#[trigger] a@[j]) == ascii_lower(b@[j]),
        decreases n - i,
    {
        if to_ascii_lower(a.get_char(i)) != to_ascii_lower(b.get_char(i)) {
            return false;
        }
        i = i + 1;
    }
    true
}

/// The content hashes agree, or one side has no comparable hash.
pub open spec fn hashes_agree(f: DriveFile, local: Option<Seq<char>>) -> bool {
    match (comparable_hash(f), local) {
        (Some(remote), Some(l)) => eq_ignore_ascii_case(remote, l),
        _ => true,
    }
}

/// Whether the cloud content matches a local SHA-256 when both are comparable.
pub fn content_hash_matches(file: &DriveFile, local_sha256: Option<&str>) -> (b: bool)
    ensures
        b == hashes_agree(*file, match local_sha256 { Some(s) => Some(s@), None => None }),
{
    match (comparable_sha256(file), local_sha256) {
        (Some(remote), Some(local)) => str_eq_ignore_ascii_case(remote.as_str(), local),
        _ => true,
    }
}


/// What a local path is on disk.
#[derive(Debug, Clone, Copy, PartialEq, Eq, Structural)]
pub enum LocalEntryKind {
    Symlink,
    Directory,
    File { placeholder: bool },
    Other,
}

/// Metadata of a local path about to be deleted.
#[derive(Debug, Clone, Copy, PartialEq, Eq, Structural)]
pub struct LocalEntryMeta {
    pub kind: LocalEntryKind,
    pub mtime_ms: Option<i64>,
    pub len: u64,
}

/// The local content still has the version its baseline records.
pub open spec fn matches_baseline(b: SyncItem, meta: LocalEntryMeta, folder: bool) -> bool {
    b.is_folder == folder && b.local_mtime == meta.mtime_ms && b.local_size == Some(meta.len as i64)
}

/// Whether deleting a local entry is safe given its baseline: directories and
/// content files must still match their baselines, placeholders need a file
/// baseline (or are orphans that may go), symlinks and other kinds are refused.
pub open spec fn delete_allowed(meta: LocalEntryMeta, path: Seq<char>, baselines: Map<Seq<char>, SyncItem>, allow_orphan: bool) -> bool {
    match meta.kind {
        LocalEntryKind::Symlink | LocalEntryKind::Other => false,
        LocalEntryKind::Directory => baselines.contains_key(path) && matches_baseline(baselines[path], meta, true),
        LocalEntryKind::File { placeholder } => if placeholder {
            allow_orphan || (baselines.contains_key(path) && !baselines[path].is_folder)
        } else {
            baselines.contains_key(path) && matches_baseline(baselines[path], meta, false)
        },
    }
}

/// Why deleting a local entry is refused (meaningful when it is).
pub open spec fn delete_refusal(meta: LocalEntryMeta, path: Seq<char>, baselines: Map<Seq<char>, SyncItem>, allow_orphan: bool) -> Seq<char> {
    match meta.kind {
        LocalEntryKind::Symlink => "待删除路径已变为符号链接："@ + path,
        LocalEntryKind::Other => "拒绝删除非普通文件："@ + path,
        LocalEntryKind::Directory => if !baselines.contains_key(path) {
            "目录不在同步基线中："@ + path
        } else {
            "目录在删除执行前发生变化："@ + path
        },
        LocalEntryKind::File { placeholder } => if placeholder {
            if !baselines.contains_key(path) { "占位符不在同步基线中："@ + path } else { "占位符类型与同步基线不一致："@ + path }
        } else if !baselines.contains_key(path) {
            "文件不在同步基线中："@ + path
        } else {
            "文件在删除执行前发生变化："@ + path
        },
    }
}

/// A refusal: `prefix` followed by the path.
fn refusal(prefix: &str, path: &str) -> (r: Result<(), AppError>)
    ensures
        r matches Err(e) && e is Generic && e.message_view() == prefix@ + path@,
{
    Err(AppError::generic(prefix.to_owned().concat(path).as_str()))
}

/// Check one local entry before deleting it. The caller walks directories and
/// checks each child with orphans not allowed.
pub fn verify_local_delete_entry(
    meta: &LocalEntryMeta,
    relative_path: &str,
    baselines: &PathMap<SyncItem>,
    allow_orphan_placeholder: bool,
) -> (r: Result<(), AppError>)
    requires
        baselines.wf(),
    ensures
        r is Ok <==> delete_allowed(*meta, relative_path@, baselines.as_map(), allow_orphan_placeholder),
        r matches Err(e) ==> e is Generic
            && e.message_view() == delete_refusal(*meta, relative_path@, baselines.as_map(), allow_orphan_placeholder),
{
    match meta.kind {
        LocalEntryKind::Symlink => refusal("待删除路径已变为符号链接：", relative_path),
        LocalEntryKind::Other => refusal("拒绝删除非普通文件：", relative_path),
        LocalEntryKind::Directory => match baselines.get(relative_path) {
            None => refusal("目录不在同步基线中：", relative_path),
            Some(b) => {
                if !b.is_folder || b.local_mtime != meta.mtime_ms || b.local_size != Some(meta.len as i64) {
                    refusal("目录在删除执行前发生变化：", relative_path)
                } else {
                    Ok(())
                }
            },
        },
        LocalEntryKind::File { placeholder } => {
            if placeholder {
                if allow_orphan_placeholder {
                    return Ok(());
                }
                match baselines.get(relative_path) {
                    None => refusal("占位符不在同步基线中：", relative_path),
                    Some(b) => if b.is_folder {
                        refusal("占位符类型与同步基线不一致：", relative_path)
                    } else {
                        Ok(())
                    },
                }
            } else {
                match baselines.get(relative_path) {
                    None => refusal("文件不在同步基线中：", relative_path),
                    Some(b) => {
                        if b.is_folder || b.local_mtime != meta.mtime_ms || b.local_size != Some(meta.len as i64) {
                            refusal("文件在删除执行前发生变化：", relative_path)
                        } else {
                            Ok(())
                        }
                    },
                }
            }
        },
    }
}

/// The upload source still has the version recorded in the task.
pub open spec fn source_current(task: TransferTask, is_file: bool, mtime_ms: Option<i64>, len: u64) -> bool {
    is_file && task.source_mtime == mtime_ms && task.source_size == Some(len as i64)
        && task.total_size == len as i64
}

/// Check that the local upload source did not change since the task was queued.
pub fn verify_source_snapshot(task: &TransferTask, is_file: bool, mtime_ms: Option<i64>, len: u64) -> (r: Result<(), AppError>)
    ensures
        r is Ok <==> source_current(*task, is_file, mtime_ms, len),
        r matches Err(e) ==> (e matches AppError::Generic { message } && message@ == "本地上传源在执行前发生变化"@),
{
    if !is_file || task.source_mtime != mtime_ms || task.source_size != Some(len as i64)
        || task.total_size != len as i64 {
        return Err(AppError::generic("本地上传源在执行前发生变化"));
    }
    Ok(())
}

/// Size and modification time of a local file.
#[derive(Debug, Clone, Copy, PartialEq, Eq, Structural)]
pub struct LocalDestinationSnapshot {
    pub mtime_ms: i64,
    pub size: u64,
}

/// Check that the source of a conflict copy did not change while the copy was made.
pub fn verify_conflict_source_snapshot(actual: &LocalDestinationSnapshot, expected: &LocalDestinationSnapshot) -> (r: Result<(), AppError>)
    ensures
        r is Ok <==> *actual == *expected,
        r matches Err(e) ==> (e matches AppError::Generic { message } && message@ == "生成副本期间本地源文件已变化"@),
{
    if actual.mtime_ms != expected.mtime_ms || actual.size != expected.size {
        return Err(AppError::generic("生成副本期间本地源文件已变化"));
    }
    Ok(())
}

} // verus!
