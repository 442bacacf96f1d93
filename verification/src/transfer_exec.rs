//! Decisions of running a durable transfer task: the checks before any
//! remote write, the choice of upload route, what an upload's answer
//! settles, and what a download must find. The task runner performs the
//! disk and drive work in between.

use vstd::prelude::*;
use crate::action_filters::{is_not_blank, not_blank};
use crate::content_checks::{source_current, verify_source_snapshot, LocalDestinationSnapshot};
use crate::conflict_flow::DownloadExpectation;
use crate::hydration::TaskDisposition;
use crate::model::{opt_str, DriveFile, DriveFileView};
use crate::settlement::ActionResult;
use crate::transfer::{operation_of_code, TransferOperation, TransferTask};

verus! {

/// Largest existing cloud file (20 MiB) that an update may replace safely.
pub const SAFE_EXISTING_UPDATE_MAX_BYTES: i64 = 20_971_520;

/// Why a task cannot run: a plain error, or one that asks for a new plan.
#[derive(Debug)]
pub struct TaskFailure {
    pub restart_required: bool,
    pub message: String,
}

/// A failure of this kind and message.
pub open spec fn fails_with(f: TaskFailure, restart_required: bool, message: Seq<char>) -> bool {
    f.restart_required == restart_required && f.message@ == message
}

/// A failure.
fn failure(restart_required: bool, message: &str) -> (f: TaskFailure)
    ensures
        fails_with(f, restart_required, message@),
{
    TaskFailure { restart_required, message: message.to_owned() }
}

/// What was read of the local upload source.
#[derive(Debug, Clone, Copy)]
pub struct SourceStat {
    pub is_file: bool,
    pub mtime_ms: Option<i64>,
    pub len: u64,
}

/// The message of a source check that failed, if it failed.
pub open spec fn source_problem(task: TransferTask, read: Result<SourceStat, String>) -> Option<Seq<char>> {
    match read {
        Err(e) => Some("读取上传源失败："@ + e@),
        Ok(s) => if source_current(task, s.is_file, s.mtime_ms, s.len) { None } else { Some("本地上传源在执行前发生变化"@) },
    }
}

/// Check the upload source, as read from disk, against the task's snapshot.
pub fn check_upload_source(task: &TransferTask, read: Result<SourceStat, String>) -> (r: Result<(), String>)
    ensures
        match source_problem(*task, read) {
            Some(m) => r matches Err(e) && e@ == m,
            None => r is Ok,
        },
{
    match read {
        Err(e) => Err("读取上传源失败：".to_owned().concat(e.as_str())),
        Ok(s) => match verify_source_snapshot(task, s.is_file, s.mtime_ms, s.len) {
            Ok(()) => Ok(()),
            Err(_) => Err("本地上传源在执行前发生变化".to_owned()),
        },
    }
}

// ----- before any remote write -----

/// The first step of the checks before a task runs.
#[derive(Debug)]
pub enum PreflightStart {
    /// Nothing to check: the task is no upload.
    Proceed,
    /// Read the upload source at this path, then call [`preflight_after_source`].
    ReadSource(String),
    /// The task needs a new plan, for this reason.
    RestartRequired(String),
}

/// Start the checks before a task runs: only uploads are checked, and they
/// need a local path.
pub fn begin_preflight(task: &TransferTask) -> (r: PreflightStart)
    ensures
        match task.operation {
            Some(code) => match operation_of_code(code) {
                None => r matches PreflightStart::RestartRequired(m) && m@ == "未知的传输操作编码"@,
                Some(op) => if op == TransferOperation::Create || op == TransferOperation::Update {
                    match task.local_path {
                        Some(p) => r matches PreflightStart::ReadSource(q) && q@ == p@,
                        None => r matches PreflightStart::RestartRequired(m) && m@ == "上传任务缺少本地路径"@,
                    }
                } else {
                    r is Proceed
                },
            },
            None => r is Proceed,
        },
{
    match task.operation_kind() {
        Some(None) => PreflightStart::RestartRequired("未知的传输操作编码".to_owned()),
        Some(Some(TransferOperation::Create)) | Some(Some(TransferOperation::Update)) => match &task.local_path {
            Some(p) => PreflightStart::ReadSource(p.clone()),
            None => PreflightStart::RestartRequired("上传任务缺少本地路径".to_owned()),
        },
        _ => PreflightStart::Proceed,
    }
}

/// What follows the source check.
#[derive(Debug)]
pub enum PreflightNext {
    /// The upload may run.
    Proceed,
    /// Ask the stability checker (see [`stability_step`]).
    CheckStability,
    /// The task needs a new plan, for this reason.
    RestartRequired(String),
}

/// The update replaces a cloud file larger than an update can replace
/// safely (a negative size counts as larger).
pub open spec fn update_too_large(task: TransferTask) -> bool {
    task.operation == Some(1i32) && (task.total_size < 0 || task.total_size > SAFE_EXISTING_UPDATE_MAX_BYTES)
}

/// After reading the upload source: the source must still match the task,
/// an update must stay within the safe size, and then the stability checker
/// decides when there is one.
pub fn preflight_after_source(task: &TransferTask, read: Result<SourceStat, String>, has_stability: bool) -> (r: PreflightNext)
    ensures
        match source_problem(*task, read) {
            Some(m) => r matches PreflightNext::RestartRequired(q) && q@ == m,
            None => if update_too_large(*task) {
                r matches PreflightNext::RestartRequired(q)
                    && q@ == "现有云端文件超过 20 MiB，Huawei 当前接口不支持安全替换；已保留远端原文件"@
            } else if has_stability {
                r is CheckStability
            } else {
                r is Proceed
            },
        },
{
    match check_upload_source(task, read) {
        Err(m) => return PreflightNext::RestartRequired(m),
        Ok(()) => {},
    }
    let is_update = match task.operation {
        Some(code) => code == 1,
        None => false,
    };
    if is_update && (task.total_size < 0 || task.total_size > SAFE_EXISTING_UPDATE_MAX_BYTES) {
        return PreflightNext::RestartRequired(
            "现有云端文件超过 20 MiB，Huawei 当前接口不支持安全替换；已保留远端原文件".to_owned(),
        );
    }
    if has_stability { PreflightNext::CheckStability } else { PreflightNext::Proceed }
}

/// What the stability checker says of the source.
#[derive(Debug, Clone, Copy, PartialEq, Eq, Structural)]
pub enum Stability {
    Stable,
    Editing,
    Unstable,
}

/// What follows one stability check.
#[derive(Debug, PartialEq, Eq)]
pub enum StabilityNext {
    /// The upload may run.
    Proceed,
    /// Wait this many seconds and check again.
    WaitAndRecheck(u64),
    /// The task needs a new plan, for this reason.
    RestartRequired(String),
}

/// The waits before the checks after the first: 2, 3 and 5 seconds.
pub open spec fn recheck_delay(attempt: int) -> u64 {
    if attempt == 1 { 2 } else if attempt == 2 { 3 } else { 5 }
}

/// After check number `attempt` (from zero) said `result`: a stable source
/// proceeds, an edited one asks for a new plan, an unstable one is checked
/// again, four times in all.
pub fn stability_step(attempt: usize, result: Stability) -> (r: StabilityNext)
    requires
        attempt < 4,
    ensures
        match result {
            Stability::Stable => r is Proceed,
            Stability::Editing => r matches StabilityNext::RestartRequired(m) && m@ == "用户正在编辑，等待重新规划"@,
            Stability::Unstable => if attempt < 3 {
                r == StabilityNext::WaitAndRecheck(recheck_delay(attempt + 1))
            } else {
                r matches StabilityNext::RestartRequired(m) && m@ == "文件尚不稳定，等待重新规划"@
            },
        },
{
    match result {
        Stability::Stable => StabilityNext::Proceed,
        Stability::Editing => StabilityNext::RestartRequired("用户正在编辑，等待重新规划".to_owned()),
        Stability::Unstable => if attempt == 0 {
            StabilityNext::WaitAndRecheck(2)
        } else if attempt == 1 {
            StabilityNext::WaitAndRecheck(3)
        } else if attempt == 2 {
            StabilityNext::WaitAndRecheck(5)
        } else {
            StabilityNext::RestartRequired("文件尚不稳定，等待重新规划".to_owned())
        },
    }
}

// ----- running the task -----

/// What kind of run a task is.
#[derive(Debug)]
pub enum RunKind {
    /// An upload of the file at the local path.
    Upload { update: bool, local_path: String },
    /// A download to the local path.
    Download { update: bool, local_path: String },
}

/// Start running a task: it needs a known operation that transfers content,
/// and a local path.
pub fn begin_run(task: &TransferTask) -> (r: Result<RunKind, TaskFailure>)
    ensures
        match task.operation {
            None => r matches Err(f) && fails_with(f, false, "任务缺少 operation"@),
            Some(code) => match operation_of_code(code) {
                None => r matches Err(f) && fails_with(f, false, "未知的传输操作编码"@),
                Some(op) => match task.local_path {
                    None => r matches Err(f) && fails_with(f, false, "任务缺少本地路径"@),
                    Some(p) => match op {
                        TransferOperation::Create | TransferOperation::Update => r matches Ok(RunKind::Upload { update, local_path })
                            && update == (op == TransferOperation::Update) && local_path@ == p@,
                        TransferOperation::Download | TransferOperation::DownloadUpdate => r matches Ok(RunKind::Download { update, local_path })
                            && update == (op == TransferOperation::DownloadUpdate) && local_path@ == p@,
                        _ => r matches Err(f) && fails_with(f, false, "该 operation 不支持传输执行"@),
                    },
                },
            },
        },
{
    let op = match task.operation_kind() {
        None => return Err(failure(false, "任务缺少 operation")),
        Some(None) => return Err(failure(false, "未知的传输操作编码")),
        Some(Some(op)) => op,
    };
    let local_path = match &task.local_path {
        None => return Err(failure(false, "任务缺少本地路径")),
        Some(p) => p.clone(),
    };
    match op {
        TransferOperation::Create => Ok(RunKind::Upload { update: false, local_path }),
        TransferOperation::Update => Ok(RunKind::Upload { update: true, local_path }),
        TransferOperation::Download => Ok(RunKind::Download { update: false, local_path }),
        TransferOperation::DownloadUpdate => Ok(RunKind::Download { update: true, local_path }),
        _ => Err(failure(false, "该 operation 不支持传输执行")),
    }
}

/// Before an update is sent, the cloud file must still be the planned
/// version: same id, same edit time.
pub fn check_update_target(task: &TransferTask, current: &DriveFile) -> (r: Result<(), TaskFailure>)
    requires
        task.file_id is Some,
    ensures
        r is Ok <==> (current@.id == task.file_id->0@ && current.edited_time == task.expected_cloud_edited_time),
        r matches Err(f) ==> fails_with(f, true, "远端文件已在规划后变化，拒绝用旧任务覆盖"@),
{
    let file_id = match &task.file_id {
        Some(f) => f,
        None => return Ok(()),
    };
    if !crate::paths::str_equal(current.id.as_str(), file_id.as_str()) || current.edited_time != task.expected_cloud_edited_time {
        return Err(failure(true, "远端文件已在规划后变化，拒绝用旧任务覆盖"));
    }
    Ok(())
}

/// A file of the target folder already has the task's name.
pub open spec fn name_collides(task: TransferTask, listing: Seq<DriveFile>) -> bool {
    exists|i: int| 0 <= i < listing.len() && listing[i]@.name == task.name@
}

/// Before a creation is sent, the target folder must not hold a file of
/// the same name.
pub fn check_create_target(task: &TransferTask, listing: &Vec<DriveFile>) -> (r: Result<(), TaskFailure>)
    ensures
        r is Ok <==> !name_collides(*task, listing@),
        r matches Err(f) ==> fails_with(f, true, "目标目录已存在同名远端文件，拒绝重复创建"@),
{
    let mut i: usize = 0;
    while i < listing.len()
        invariant
            i <= listing@.len(),
            forall|j: int| 0 <= j < i ==> listing@[j]@.name != task.name@,
        decreases listing@.len() - i,
    {
        if crate::paths::str_equal(listing[i].name.as_str(), task.name.as_str()) {
            return Err(failure(true, "目标目录已存在同名远端文件，拒绝重复创建"));
        }
        i = i + 1;
    }
    Ok(())
}

/// A resumable upload session recorded in the task.
#[derive(Debug)]
pub struct ResumeSession {
    pub server_id: String,
    pub upload_id: String,
    pub session_url: String,
    pub chunk_size: u64,
    pub start_offset: u64,
}

/// How the upload is sent.
#[derive(Debug)]
pub enum UploadRoute {
    /// Replace the content of this cloud file.
    Update { file_id: String },
    /// Continue the recorded session.
    Resume(ResumeSession),
    /// Start a new upload.
    Fresh,
}

/// The text of an optional string, empty when absent.
pub open spec fn or_empty(s: Option<String>) -> Seq<char> {
    match s {
        Some(v) => v@,
        None => Seq::empty(),
    }
}

/// The text of an optional string, empty when absent.
fn text_or_empty(s: &Option<String>) -> (t: String)
    ensures
        t@ == or_empty(*s),
{
    match s {
        Some(v) => v.clone(),
        None => String::new(),
    }
}

/// Choose how the upload is sent: an update replaces the planned file; a
/// creation with a recorded, non-blank session continues it (even from
/// offset zero); otherwise a new upload starts.
pub fn upload_route(task: &TransferTask, update: bool) -> (r: UploadRoute)
    requires
        update ==> task.file_id is Some,
    ensures
        update ==> (r matches UploadRoute::Update { file_id } && file_id@ == task.file_id->0@),
        !update && (task.session_url matches Some(u) && not_blank(u@)) ==> (r matches UploadRoute::Resume(s)
            && s.server_id@ == or_empty(task.server_id) && s.upload_id@ == or_empty(task.upload_id)
            && s.session_url@ == task.session_url->0@ && s.chunk_size == 0
            && s.start_offset == task.resume_offset as u64),
        !update && !(task.session_url matches Some(u) && not_blank(u@)) ==> r is Fresh,
{
    if update {
        let file_id = match &task.file_id {
            Some(f) => f.clone(),
            None => String::new(),
        };
        return UploadRoute::Update { file_id };
    }
    match &task.session_url {
        Some(u) => if is_not_blank(u.as_str()) {
            UploadRoute::Resume(ResumeSession {
                server_id: text_or_empty(&task.server_id),
                upload_id: text_or_empty(&task.upload_id),
                session_url: u.clone(),
                chunk_size: 0,
                start_offset: task.resume_offset as u64,
            })
        } else {
            UploadRoute::Fresh
        },
        None => UploadRoute::Fresh,
    }
}

/// What an upload's answer settles.
#[derive(Debug)]
pub enum UploadSettles {
    /// The upload is complete with this cloud file.
    Complete(DriveFile),
    /// The answer lacks an edit time: fetch the file by id, then call
    /// [`after_upload_refetch`].
    Refetch(DriveFile),
}

/// After the upload answered with a cloud file: complete when it carries
/// an edit time, else fetched again.
pub fn after_upload(uploaded: DriveFile) -> (r: UploadSettles)
    ensures
        uploaded.edited_time is Some ==> r == UploadSettles::Complete(uploaded),
        uploaded.edited_time is None ==> r == UploadSettles::Refetch(uploaded),
{
    if uploaded.edited_time.is_some() {
        UploadSettles::Complete(uploaded)
    } else {
        UploadSettles::Refetch(uploaded)
    }
}

/// The result of running a task: the cloud file it produced and where the
/// task stands.
#[derive(Debug)]
pub struct RunOutcome {
    pub cloud_file: Option<DriveFile>,
    pub disposition: TaskDisposition,
}

/// After fetching an uploaded file again: a full answer for the same id
/// completes the task; anything else leaves it to remote verification,
/// with the best cloud file known.
pub fn after_upload_refetch(uploaded: DriveFile, fetched: Result<DriveFile, String>) -> (r: RunOutcome)
    ensures
        match fetched {
            Ok(full) => if full@.id == uploaded@.id && full.edited_time is Some {
                r.cloud_file == Some(full) && r.disposition == TaskDisposition::Completed
            } else {
                r.cloud_file == Some(full) && r.disposition == TaskDisposition::VerifyingRemote
            },
            Err(_) => r.cloud_file == Some(uploaded) && r.disposition == TaskDisposition::VerifyingRemote,
        },
{
    match fetched {
        Ok(full) => {
            let complete = crate::paths::str_equal(full.id.as_str(), uploaded.id.as_str()) && full.edited_time.is_some();
            RunOutcome {
                cloud_file: Some(full),
                disposition: if complete { TaskDisposition::Completed } else { TaskDisposition::VerifyingRemote },
            }
        },
        Err(_) => RunOutcome { cloud_file: Some(uploaded), disposition: TaskDisposition::VerifyingRemote },
    }
}

/// The expectation of a task's download: the planned edit time and size,
/// the local snapshot that an update replaces, or the placeholder that a
/// first download fills.
pub open spec fn download_expects(e: DownloadExpectation, task: TransferTask, update: bool) -> bool {
    &&& e.edited_time_ms == task.expected_cloud_edited_time
    &&& e.size == if task.total_size >= 0 { Some(task.total_size as u64) } else { None }
    &&& e.content_hash is None
    &&& if update {
        e.destination_snapshot == Some(LocalDestinationSnapshot {
            mtime_ms: task.source_mtime->0,
            size: task.source_size->0 as u64,
        }) && e.placeholder_file_id is None
    } else {
        e.destination_snapshot is None && (e.placeholder_file_id matches Some(id) && id@ == task.file_id->0@)
    }
}

/// What a task's download must find; an update needs the snapshot of the
/// local content it replaces.
pub fn download_expectation(task: &TransferTask, update: bool) -> (r: Result<DownloadExpectation, TaskFailure>)
    requires
        task.file_id is Some,
    ensures
        update && task.source_mtime is None ==> (r matches Err(f) && fails_with(f, false, "更新下载缺少本地目标修改时间快照"@)),
        update && task.source_mtime is Some && task.source_size is None ==> (r matches Err(f)
            && fails_with(f, false, "更新下载缺少本地目标大小快照"@)),
        update && task.source_mtime is Some && (task.source_size matches Some(s) && s < 0) ==> (r matches Err(f)
            && fails_with(f, false, "更新下载本地目标大小非法"@)),
        (!update || (task.source_mtime is Some && (task.source_size matches Some(s) && s >= 0))) ==> (r matches Ok(e)
            && download_expects(e, *task, update)),
{
    let destination = if update {
        let mtime_ms = match task.source_mtime {
            Some(m) => m,
            None => return Err(failure(false, "更新下载缺少本地目标修改时间快照")),
        };
        let size = match task.source_size {
            Some(s) => s,
            None => return Err(failure(false, "更新下载缺少本地目标大小快照")),
        };
        if size < 0 {
            return Err(failure(false, "更新下载本地目标大小非法"));
        }
        Some(LocalDestinationSnapshot { mtime_ms, size: size as u64 })
    } else {
        None
    };
    let placeholder = if update {
        None
    } else {
        match &task.file_id {
            Some(f) => Some(f.clone()),
            None => None,
        }
    };
    Ok(DownloadExpectation {
        edited_time_ms: task.expected_cloud_edited_time,
        size: if task.total_size >= 0 { Some(task.total_size as u64) } else { None },
        content_hash: None,
        destination_snapshot: destination,
        placeholder_file_id: placeholder,
    })
}

/// The result of a planned upload or download, from the durable task's
/// run: completion settles the action with the task's cloud file; any other
/// standing defers it with `waiting_message`; a failure to run fails it.
pub fn transfer_action_result(run: Result<RunOutcome, String>, waiting_message: String) -> (r: ActionResult)
    ensures
        match run {
            Ok(o) => if o.disposition == TaskDisposition::Completed {
                r.success && !r.deferred && r.error_message is None && r.cloud_file == o.cloud_file
            } else {
                !r.success && r.deferred && r.error_message == Some(waiting_message) && r.cloud_file is None
            },
            Err(e) => !r.success && !r.deferred && r.error_message == Some(e) && r.cloud_file is None,
        },
{
    match run {
        Ok(o) => if o.disposition == TaskDisposition::Completed {
            ActionResult { success: true, error_message: None, deferred: false, cloud_file: o.cloud_file }
        } else {
            ActionResult { success: false, error_message: Some(waiting_message), deferred: true, cloud_file: None }
        },
        Err(e) => ActionResult { success: false, error_message: Some(e), deferred: false, cloud_file: None },
    }
}

/// What an upload reads of the drive before it writes: the file it updates,
/// or the listing of the folder it creates in.
pub enum UploadTargetRead {
    File(String),
    Listing(Option<String>),
}

/// What an upload reads before writing: the current file for an update
/// (which needs the task's file id), the parent's listing for a creation.
pub fn upload_target_read(task: &TransferTask, update: bool) -> (r: Result<UploadTargetRead, TaskFailure>)
    ensures
        match r {
            Ok(UploadTargetRead::File(id)) => update && opt_str(task.file_id) == Some(id@),
            Ok(UploadTargetRead::Listing(p)) => !update && opt_str(p) == opt_str(task.parent_file_id),
            Err(f) => update && task.file_id is None && fails_with(f, false, "任务缺少 fileId"@),
        },
        (update && task.file_id is None) <==> r is Err,
{
    if update {
        match &task.file_id {
            Some(id) => Ok(UploadTargetRead::File(id.clone())),
            None => Err(TaskFailure { restart_required: false, message: "任务缺少 fileId".to_owned() }),
        }
    } else {
        Ok(UploadTargetRead::Listing(crate::model::clone_opt_string(&task.parent_file_id)))
    }
}

} // verus!
