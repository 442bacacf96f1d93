//! Deciding, from what the drive reports, whether an interrupted upload was
//! committed remotely.
//!
//! The drive is asked by the caller; these functions judge its answers.

use vstd::prelude::*;
use crate::action_filters::{is_not_blank, not_blank};
use crate::content_checks::{comparable_hash, content_hash_matches, hashes_agree};
use crate::error::AppError;
use crate::model::{opt_str, DriveFile, DriveFileView};
use crate::paths::str_equal;
use crate::transfer::{TransferOperation, TransferTask};
use crate::retain::{lemma_filter_empty, lemma_filter_take_step};

verus! {

/// What the drive shows of an upload whose response was lost.
pub enum RemoteVerification {
    /// The upload is committed as this file.
    Committed(DriveFile),
    /// Nothing was written; the upload may run again.
    NotCommitted,
    /// The evidence allows neither conclusion.
    Ambiguous(String),
}

/// Mathematical view of [`RemoteVerification`].
pub enum RemoteVerificationView {
    Committed(DriveFileView),
    NotCommitted,
    Ambiguous(Seq<char>),
}

impl View for RemoteVerification {
    type V = RemoteVerificationView;

    open spec fn view(&self) -> RemoteVerificationView {
        match self {
            RemoteVerification::Committed(f) => RemoteVerificationView::Committed(f@),
            RemoteVerification::NotCommitted => RemoteVerificationView::NotCommitted,
            RemoteVerification::Ambiguous(m) => RemoteVerificationView::Ambiguous(m@),
        }
    }
}

/// Result of looking a file up by id: found, or not found (404).
pub enum FileLookup {
    Found(DriveFile),
    Missing,
}

/// The drive request that the verification of a task needs.
pub enum VerificationRequest {
    /// Look the created file up by the remote id the upload returned.
    CreatedById(String),
    /// List the parent folder (the root when `None`) for the created file.
    ListParent(Option<String>),
    /// Look the updated file up by its id.
    UpdatedFile(String),
    /// Decided without asking the drive.
    Decided(RemoteVerification),
}

/// Size the task uploads: the source size, else the total size.
pub open spec fn expected_size(task: TransferTask) -> i64 {
    match task.source_size {
        Some(s) => s,
        None => task.total_size,
    }
}

/// The remote result id recorded for the task, when it is not blank.
pub open spec fn result_id(task: TransferTask) -> Option<Seq<char>> {
    match task.remote_result_file_id {
        Some(id) => if not_blank(id@) { Some(id@) } else { None },
        None => None,
    }
}

/// Local hash as characters.
pub open spec fn opt_hash(h: Option<String>) -> Option<Seq<char>> {
    opt_str(h)
}

pub open spec fn msg_created_missing() -> Seq<char> {
    "上传曾返回远端 ID，但该资源当前不可见；禁止重复创建"@
}

pub open spec fn msg_created_mismatch() -> Seq<char> {
    "远端结果 ID 存在，但名称或大小与创建任务不一致"@
}

pub open spec fn msg_created_hash() -> Seq<char> {
    "远端结果 ID 的 content_hash 与上传源不一致"@
}

pub open spec fn msg_untimed() -> Seq<char> {
    "发现同名同大小资源但缺少创建时间，无法排除重复文件"@
}

pub open spec fn msg_several() -> Seq<char> {
    "父目录内存在多个符合创建任务的远端资源"@
}

pub open spec fn msg_update_missing() -> Seq<char> {
    "待更新的既有远端文件已不可见，禁止降级创建"@
}

pub open spec fn msg_update_result_mismatch() -> Seq<char> {
    "更新已返回远端结果 ID，但当前资源身份不一致"@
}

pub open spec fn msg_update_changed() -> Seq<char> {
    "远端版本已变化，但内容身份与本次更新不一致"@
}

pub open spec fn msg_not_upload() -> Seq<char> {
    "该任务不是可核验的上传写入"@
}

/// The file carries the task's name and expected size.
pub open spec fn same_identity(task: TransferTask, f: DriveFile) -> bool {
    f.name@ == task.name@ && f.size == expected_size(task)
}

/// Verdict on the file found under the remote id of a created upload.
pub open spec fn created_by_id_verdict(
    task: TransferTask,
    remote_id: Seq<char>,
    lookup: FileLookup,
    local_sha256: Option<Seq<char>>,
) -> RemoteVerificationView {
    match lookup {
        FileLookup::Missing => RemoteVerificationView::Ambiguous(msg_created_missing()),
        FileLookup::Found(f) => if f.id@ != remote_id || !same_identity(task, f) {
            RemoteVerificationView::Ambiguous(msg_created_mismatch())
        } else if !hashes_agree(f, local_sha256) {
            RemoteVerificationView::Ambiguous(msg_created_hash())
        } else {
            RemoteVerificationView::Committed(f@)
        },
    }
}

/// Whether judging a found file needs the local SHA-256 of the source.
pub fn lookup_needs_local_hash(lookup: &FileLookup) -> (b: bool)
    ensures
        b == (*lookup matches FileLookup::Found(f) && comparable_hash(f) is Some),
{
    match lookup {
        FileLookup::Found(f) => crate::content_checks::comparable_sha256(f).is_some(),
        FileLookup::Missing => false,
    }
}

/// Judge the file found under the remote id that the create returned.
pub fn verify_created_by_id(
    task: &TransferTask,
    remote_id: &str,
    lookup: FileLookup,
    local_sha256: Option<String>,
) -> (r: RemoteVerification)
    ensures
        r@ == created_by_id_verdict(*task, remote_id@, lookup, opt_hash(local_sha256)),
{
    match lookup {
        FileLookup::Missing => RemoteVerification::Ambiguous(
            "上传曾返回远端 ID，但该资源当前不可见；禁止重复创建".to_owned()),
        FileLookup::Found(f) => {
            let expected = match task.source_size {
                Some(s) => s,
                None => task.total_size,
            };
            if !str_equal(f.id.as_str(), remote_id) || !str_equal(f.name.as_str(), task.name.as_str())
                || f.size != expected {
                RemoteVerification::Ambiguous("远端结果 ID 存在，但名称或大小与创建任务不一致".to_owned())
            } else if !content_hash_matches(&f, match &local_sha256 {
                Some(h) => Some(h.as_str()),
                None => None,
            }) {
                RemoteVerification::Ambiguous("远端结果 ID 的 content_hash 与上传源不一致".to_owned())
            } else {
                RemoteVerification::Committed(f)
            }
        },
    }
}

/// `a - b`, clamped to the `i64` range.
pub open spec fn sat_sub_i64(a: i64, b: int) -> i64 {
    if a - b < i64::MIN { i64::MIN } else if a - b > i64::MAX { i64::MAX } else { (a - b) as i64 }
}

/// Earliest creation time accepted for the task's file: two minutes before
/// the task was created.
pub open spec fn window_start(task: TransferTask) -> i64 {
    sat_sub_i64(task.created_at, 120_000)
}

/// Latest creation time accepted: thirty days after the task was created.
pub open spec fn window_end(task: TransferTask) -> i64 {
    crate::error::sat_add_i64(task.created_at, 2_592_000_000)
}

/// The file sits in the task's parent folder, as its only parent; any parent
/// when the task has none.
pub open spec fn parent_matches(task: TransferTask, f: DriveFile) -> bool {
    match task.parent_file_id {
        None => true,
        Some(p) => match f.parent_folder {
            Some(ps) => ps@.len() == 1 && ps@[0]@ == p@,
            None => false,
        },
    }
}

/// The listed file could be the task's upload, apart from its creation time.
pub open spec fn listed_candidate(task: TransferTask, f: DriveFile, local_sha256: Option<Seq<char>>) -> bool {
    same_identity(task, f) && parent_matches(task, f) && hashes_agree(f, local_sha256)
}

/// A candidate created inside the task's time window.
pub open spec fn timed_candidate(task: TransferTask, f: DriveFile, local_sha256: Option<Seq<char>>) -> bool {
    listed_candidate(task, f, local_sha256) && match f.created_time {
        Some(t) => window_start(task) <= t <= window_end(task),
        None => false,
    }
}

/// A candidate without a creation time.
pub open spec fn untimed_candidate(task: TransferTask, f: DriveFile, local_sha256: Option<Seq<char>>) -> bool {
    listed_candidate(task, f, local_sha256) && f.created_time is None
}

/// The timed candidates of a listing, in order.
pub open spec fn timed_files(task: TransferTask, files: Seq<DriveFile>, local_sha256: Option<Seq<char>>) -> Seq<DriveFile> {
    files.filter(|f: DriveFile| timed_candidate(task, f, local_sha256))
}

/// The untimed candidates of a listing, in order.
pub open spec fn untimed_files(task: TransferTask, files: Seq<DriveFile>, local_sha256: Option<Seq<char>>) -> Seq<DriveFile> {
    files.filter(|f: DriveFile| untimed_candidate(task, f, local_sha256))
}

/// Verdict on a listing of the parent folder of a created upload without a
/// recorded remote id: exactly one timed candidate commits; none at all means
/// nothing was written; anything else is ambiguous.
pub open spec fn listing_verdict(
    task: TransferTask,
    files: Seq<DriveFile>,
    local_sha256: Option<Seq<char>>,
) -> RemoteVerificationView {
    let timed = timed_files(task, files, local_sha256);
    let untimed = untimed_files(task, files, local_sha256);
    if timed.len() == 1 {
        RemoteVerificationView::Committed(timed[0]@)
    } else if timed.len() == 0 && untimed.len() > 0 {
        RemoteVerificationView::Ambiguous(msg_untimed())
    } else if timed.len() == 0 {
        RemoteVerificationView::NotCommitted
    } else {
        RemoteVerificationView::Ambiguous(msg_several())
    }
}

/// `a - b`, clamped to the `i64` range.
fn saturating_sub_i64(a: i64, b: i64) -> (r: i64)
    requires
        b >= 0,
    ensures
        r == sat_sub_i64(a, b as int),
{
    if a < i64::MIN + b { i64::MIN } else { a - b }
}

/// Whether `f` could be the task's upload apart from time and hash.
fn identity_and_parent(task: &TransferTask, f: &DriveFile) -> (b: bool)
    ensures
        b == (same_identity(*task, *f) && parent_matches(*task, *f)),
{
    let expected = match task.source_size {
        Some(s) => s,
        None => task.total_size,
    };
    if !str_equal(f.name.as_str(), task.name.as_str()) || f.size != expected {
        return false;
    }
    match &task.parent_file_id {
        None => true,
        Some(p) => match &f.parent_folder {
            Some(ps) => ps.len() == 1 && str_equal(ps[0].as_str(), p.as_str()),
            None => false,
        },
    }
}

/// Whether judging the listing needs the local SHA-256 of the source: some
/// file that could be the upload has a comparable hash.
pub open spec fn listing_needs_hash(task: TransferTask, files: Seq<DriveFile>) -> bool {
    exists|i: int| 0 <= i < files.len() && same_identity(task, #[trigger] files[i])
        && parent_matches(task, files[i]) && comparable_hash(files[i]) is Some
        && (files[i].created_time is None || (window_start(task) <= files[i].created_time->0
            <= window_end(task)))
}

/// Whether judging the listing needs the local SHA-256 of the source.
pub fn listing_needs_local_hash(task: &TransferTask, files: &Vec<DriveFile>) -> (b: bool)
    ensures
        b == listing_needs_hash(*task, files@),
{
    let lower = saturating_sub_i64(task.created_at, 120_000);
    let upper = crate::error::saturating_add_i64(task.created_at, 2_592_000_000);
    let mut i: usize = 0;
    while i < files.len()
        invariant
            i <= files@.len(),
            lower == window_start(*task),
            upper == window_end(*task),
            forall|j: int| 0 <= j < i ==> !(same_identity(*task, #[trigger] files@[j])
                && parent_matches(*task, files@[j]) && comparable_hash(files@[j]) is Some
                && (files@[j].created_time is None || (window_start(*task) <= files@[j].created_time->0
                    <= window_end(*task)))),
        decreases files@.len() - i,
    {
        let f = &files[i];
        if identity_and_parent(task, f) && crate::content_checks::comparable_sha256(f).is_some() {
            let in_window = match f.created_time {
                Some(t) => lower <= t && t <= upper,
                None => true,
            };
            if in_window {
                return true;
            }
        }
        i = i + 1;
    }
    false
}

/// Judge a listing of the parent folder for a created upload that recorded no
/// remote id.
pub fn verify_created_by_listing(
    task: &TransferTask,
    files: &Vec<DriveFile>,
    local_sha256: Option<String>,
) -> (r: RemoteVerification)
    ensures
        r@ == listing_verdict(*task, files@, opt_hash(local_sha256)),
{
    let ghost local = opt_hash(local_sha256);
    let lower = saturating_sub_i64(task.created_at, 120_000);
    let upper = crate::error::saturating_add_i64(task.created_at, 2_592_000_000);
    let local_ref: Option<&str> = match &local_sha256 {
        Some(h) => Some(h.as_str()),
        None => None,
    };
    let mut timed: usize = 0;
    let mut first: usize = 0;
    let mut untimed: usize = 0;
    let mut i: usize = 0;
    proof {
        lemma_filter_empty(files@.take(0), |f: DriveFile| timed_candidate(*task, f, local));
        lemma_filter_empty(files@.take(0), |f: DriveFile| untimed_candidate(*task, f, local));
    }
    while i < files.len()
        invariant
            i <= files@.len(),
            lower == window_start(*task),
            upper == window_end(*task),
            local == opt_hash(local_sha256),
            local == match local_ref { Some(s) => Some(s@), None => None },
            timed == timed_files(*task, files@.take(i as int), local).len(),
            untimed == untimed_files(*task, files@.take(i as int), local).len(),
            timed > 0 ==> first < i && timed_files(*task, files@.take(i as int), local)[0] == files@[first as int],
            untimed <= i,
            timed <= i,
        decreases files@.len() - i,
    {
        let f = &files[i];
        proof {
            lemma_filter_take_step(files@, i as int, |f: DriveFile| timed_candidate(*task, f, local));
            lemma_filter_take_step(files@, i as int, |f: DriveFile| untimed_candidate(*task, f, local));
        }
        if identity_and_parent(task, f) && content_hash_matches(f, local_ref) {
            match f.created_time {
                Some(t) => {
                    if lower <= t && t <= upper {
                        if timed == 0 {
                            first = i;
                        }
                        timed = timed + 1;
                    }
                },
                None => {
                    untimed = untimed + 1;
                },
            }
        }
        i = i + 1;
    }
    proof {
        assert(files@.take(files@.len() as int) =~= files@);
    }
    if timed == 1 {
        RemoteVerification::Committed(files[first].duplicate())
    } else if timed == 0 && untimed > 0 {
        RemoteVerification::Ambiguous("发现同名同大小资源但缺少创建时间，无法排除重复文件".to_owned())
    } else if timed == 0 {
        RemoteVerification::NotCommitted
    } else {
        RemoteVerification::Ambiguous("父目录内存在多个符合创建任务的远端资源".to_owned())
    }
}

/// Verdict on the current state of the file an update targeted.
pub open spec fn updated_verdict(
    task: TransferTask,
    file_id: Seq<char>,
    lookup: FileLookup,
) -> RemoteVerificationView {
    match lookup {
        FileLookup::Missing => RemoteVerificationView::Ambiguous(msg_update_missing()),
        FileLookup::Found(f) => match result_id(task) {
            Some(rid) => if rid == file_id && f.id@ == file_id && same_identity(task, f) {
                RemoteVerificationView::Committed(f@)
            } else {
                RemoteVerificationView::Ambiguous(msg_update_result_mismatch())
            },
            None => if f.edited_time == task.expected_cloud_edited_time {
                RemoteVerificationView::NotCommitted
            } else if f.id@ == file_id && same_identity(task, f) && f.edited_time is Some {
                RemoteVerificationView::Committed(f@)
            } else {
                RemoteVerificationView::Ambiguous(msg_update_changed())
            },
        },
    }
}

/// The remote result id recorded for the task, when it is not blank.
fn present_result_id(task: &TransferTask) -> (r: Option<&String>)
    ensures
        match r { Some(s) => Some(s@), None => None } == result_id(*task),
{
    match &task.remote_result_file_id {
        Some(id) => if is_not_blank(id.as_str()) { Some(id) } else { None },
        None => None,
    }
}

/// Judge the file an update targeted: a recorded result id must name it with
/// the task's identity; otherwise an unchanged edit time means nothing was
/// written, and a changed one commits only with the task's identity.
pub fn verify_updated(task: &TransferTask, file_id: &str, lookup: FileLookup) -> (r: RemoteVerification)
    ensures
        r@ == updated_verdict(*task, file_id@, lookup),
{
    match lookup {
        FileLookup::Missing => RemoteVerification::Ambiguous(
            "待更新的既有远端文件已不可见，禁止降级创建".to_owned()),
        FileLookup::Found(f) => {
            let expected = match task.source_size {
                Some(s) => s,
                None => task.total_size,
            };
            let identity = str_equal(f.id.as_str(), file_id) && str_equal(f.name.as_str(), task.name.as_str())
                && f.size == expected;
            match present_result_id(task) {
                Some(rid) => {
                    if str_equal(rid.as_str(), file_id) && identity {
                        RemoteVerification::Committed(f)
                    } else {
                        RemoteVerification::Ambiguous("更新已返回远端结果 ID，但当前资源身份不一致".to_owned())
                    }
                },
                None => {
                    if f.edited_time == task.expected_cloud_edited_time {
                        RemoteVerification::NotCommitted
                    } else if identity && f.edited_time.is_some() {
                        RemoteVerification::Committed(f)
                    } else {
                        RemoteVerification::Ambiguous("远端版本已变化，但内容身份与本次更新不一致".to_owned())
                    }
                },
            }
        },
    }
}

/// View of a verification request.
pub enum VerificationRequestView {
    CreatedById(Seq<char>),
    ListParent(Option<Seq<char>>),
    UpdatedFile(Seq<char>),
    Decided(RemoteVerificationView),
}

impl View for VerificationRequest {
    type V = VerificationRequestView;

    open spec fn view(&self) -> VerificationRequestView {
        match self {
            VerificationRequest::CreatedById(id) => VerificationRequestView::CreatedById(id@),
            VerificationRequest::ListParent(p) => VerificationRequestView::ListParent(opt_str(*p)),
            VerificationRequest::UpdatedFile(id) => VerificationRequestView::UpdatedFile(id@),
            VerificationRequest::Decided(v) => VerificationRequestView::Decided(v@),
        }
    }
}

pub open spec fn msg_missing_operation() -> Seq<char> {
    "远端核验缺少 operation"@
}

pub open spec fn msg_unknown_operation() -> Seq<char> {
    "未知的传输操作编码"@
}

pub open spec fn msg_update_without_id() -> Seq<char> {
    "Update 核验缺少 fileId"@
}

/// What verifying the task asks of the drive, or why it cannot start.
pub open spec fn request_for(task: TransferTask) -> Result<VerificationRequestView, Seq<char>> {
    match task.operation {
        None => Err(msg_missing_operation()),
        Some(code) => match crate::transfer::operation_of_code(code) {
            None => Err(msg_unknown_operation()),
            Some(TransferOperation::Create) => match result_id(task) {
                Some(id) => Ok(VerificationRequestView::CreatedById(id)),
                None => Ok(VerificationRequestView::ListParent(opt_str(task.parent_file_id))),
            },
            Some(TransferOperation::Update) => match task.file_id {
                Some(id) => Ok(VerificationRequestView::UpdatedFile(id@)),
                None => Err(msg_update_without_id()),
            },
            Some(_) => Ok(VerificationRequestView::Decided(
                RemoteVerificationView::Ambiguous(msg_not_upload()))),
        },
    }
}

/// What verifying the task asks of the drive.
pub fn verification_request(task: &TransferTask) -> (r: Result<VerificationRequest, AppError>)
    ensures
        match r {
            Ok(q) => request_for(*task) == Ok::<VerificationRequestView, Seq<char>>(q@),
            Err(e) => e is Generic && request_for(*task) == Err::<VerificationRequestView, Seq<char>>(e.message_view()),
        },
{
    match task.operation_kind() {
        None => Err(AppError::generic("远端核验缺少 operation")),
        Some(None) => Err(AppError::generic("未知的传输操作编码")),
        Some(Some(TransferOperation::Create)) => match present_result_id(task) {
            Some(id) => Ok(VerificationRequest::CreatedById(id.clone())),
            None => Ok(VerificationRequest::ListParent(crate::model::clone_opt_string(&task.parent_file_id))),
        },
        Some(Some(TransferOperation::Update)) => match &task.file_id {
            Some(id) => Ok(VerificationRequest::UpdatedFile(id.clone())),
            None => Err(AppError::generic("Update 核验缺少 fileId")),
        },
        Some(Some(_)) => Ok(VerificationRequest::Decided(
            RemoteVerification::Ambiguous("该任务不是可核验的上传写入".to_owned()))),
    }
}

} // verus!
