//! Decisions of on-demand downloads (hydration): what the local target
//! looks like, which baseline may stand in for live cloud metadata, when a
//! blocked request retries or observes another task, how a waiting reader
//! follows the durable task, and what the kernel is finally told.

use vstd::prelude::*;
use crate::content_checks::LocalEntryKind;
use crate::error::AppError;
use crate::hydration::{
    errno_for_error, hydration_error_kind, observable, observable_hydration_disposition,
    same_hydration_intent, same_intent, DestinationSnapshot, FuseErrno, TaskDisposition,
};
use crate::model::{opt_str, DriveFile, SyncItem};
use crate::transfer::{state_of_code, TransferState, TransferTask};

verus! {

/// An error with this message.
pub open spec fn generic_with(e: AppError, message: Seq<char>) -> bool {
    e is Generic && e.message_view() == message
}

/// A configuration error with this message.
pub open spec fn config_with(e: AppError, message: Seq<char>) -> bool {
    e is Config && e.message_view() == message
}

// ----- the local target -----

/// What was read of a local path: its kind, size and modification time.
#[derive(Debug, Clone, Copy)]
pub struct TargetStat {
    pub kind: LocalEntryKind,
    pub len: u64,
    pub mtime_ms: Option<i64>,
}

/// The version of the download target to protect: none when it is missing
/// or an empty placeholder (a first download); a link or anything but a
/// regular file, or a file without a readable time, is refused.
pub fn destination_snapshot(read: Result<Option<TargetStat>, String>) -> (r: Result<Option<DestinationSnapshot>, AppError>)
    ensures
        match read {
            Err(e) => r matches Err(x) && generic_with(x, "读取按需下载目标失败："@ + e@),
            Ok(None) => r == Ok::<Option<DestinationSnapshot>, AppError>(None),
            Ok(Some(s)) => match s.kind {
                LocalEntryKind::File { placeholder } => if s.len == 0 && placeholder {
                    r == Ok::<Option<DestinationSnapshot>, AppError>(None)
                } else {
                    match s.mtime_ms {
                        None => r matches Err(x) && generic_with(x, "无法读取按需下载目标修改时间"@),
                        Some(t) => r == Ok::<Option<DestinationSnapshot>, AppError>(
                            Some(DestinationSnapshot { mtime: t, size: s.len as i64 })),
                    }
                },
                _ => r matches Err(x) && generic_with(x, "按需下载目标不是安全的普通文件"@),
            },
        },
{
    let s = match read {
        Err(e) => return Err(AppError::generic("读取按需下载目标失败：".to_owned().concat(e.as_str()).as_str())),
        Ok(None) => return Ok(None),
        Ok(Some(s)) => s,
    };
    let placeholder = match s.kind {
        LocalEntryKind::File { placeholder } => placeholder,
        _ => return Err(AppError::generic("按需下载目标不是安全的普通文件")),
    };
    if s.len == 0 && placeholder {
        return Ok(None);
    }
    match s.mtime_ms {
        None => Err(AppError::generic("无法读取按需下载目标修改时间")),
        Some(t) => Ok(Some(DestinationSnapshot { mtime: t, size: s.len as i64 })),
    }
}

/// A baseline complete enough to stand in for live cloud metadata: a known
/// size and a known edit time.
pub open spec fn trusted_baseline(r: SyncItem) -> bool {
    r.size >= 0 && r.cloud_edited_time is Some
}

/// Whether a baseline may stand in for live cloud metadata.
pub fn is_trusted_baseline(record: &SyncItem) -> (b: bool)
    ensures
        b == trusted_baseline(*record),
{
    record.size >= 0 && record.cloud_edited_time.is_some()
}

/// After asking the drive for the file's metadata: its answer, or, when the
/// request failed, nothing (the baseline stands in) if a trusted baseline
/// exists, else the failure.
pub fn live_or_baseline(fetched: Result<DriveFile, AppError>, has_trusted_baseline: bool) -> (r: Result<Option<DriveFile>, AppError>)
    ensures
        match fetched {
            Ok(f) => r == Ok::<Option<DriveFile>, AppError>(Some(f)),
            Err(e) => if has_trusted_baseline { r == Ok::<Option<DriveFile>, AppError>(None) } else { r == Err::<Option<DriveFile>, AppError>(e) },
        },
{
    match fetched {
        Ok(f) => Ok(Some(f)),
        Err(e) => if has_trusted_baseline { Ok(None) } else { Err(e) },
    }
}

// ----- a moved target -----

/// What was read at the requested and the recorded paths of a file whose
/// baseline path differs from the requested one.
#[derive(Debug)]
pub struct MovedTargetProbe {
    /// Whether the requested path's parents are safe folders.
    pub requested_parents: Result<(), String>,
    /// The requested path.
    pub requested: Result<LocalEntryKind, String>,
    /// The file id attribute of the requested path.
    pub requested_owner: Result<Option<String>, String>,
    /// Whether the recorded path's parents are safe folders (or missing).
    pub recorded_parents: Result<(), String>,
    /// The recorded path: none when it is gone.
    pub recorded: Result<Option<LocalEntryKind>, String>,
    /// The file id attribute of the recorded path.
    pub recorded_owner: Result<Option<String>, String>,
}

/// Why the requested path cannot stand for a local move of the file, if it
/// cannot: it must be a safe regular file carrying the file id, and the
/// recorded path must be gone or no longer carry it.
pub open spec fn moved_target_problem(file_id: Seq<char>, p: MovedTargetProbe) -> Option<Seq<char>> {
    if p.requested_parents is Err {
        Some("下载路径不一致，且请求目标父目录不安全："@ + "file_id="@ + file_id + ", error="@ + p.requested_parents->Err_0@)
    } else if p.requested is Err {
        Some("下载路径不一致，且无法读取请求目标："@ + "file_id="@ + file_id + ", error="@ + p.requested->Err_0@)
    } else if !(p.requested->Ok_0 is File) {
        Some("下载路径不一致，且请求目标不是安全的普通文件："@ + "file_id="@ + file_id)
    } else if p.requested_owner is Err {
        Some("下载路径不一致，且无法核验请求目标身份："@ + "file_id="@ + file_id + ", error="@ + p.requested_owner->Err_0@)
    } else if opt_str(p.requested_owner->Ok_0) != Some(file_id) {
        Some("下载路径不一致，且请求目标 fileId 不匹配："@ + "file_id="@ + file_id)
    } else if p.recorded_parents is Err {
        Some("下载路径不一致，且数据库旧路径父目录不安全："@ + "file_id="@ + file_id + ", error="@ + p.recorded_parents->Err_0@)
    } else if p.recorded is Err {
        Some("下载路径不一致，且无法确认数据库旧路径已消失："@ + "file_id="@ + file_id + ", error="@ + p.recorded->Err_0@)
    } else if p.recorded->Ok_0 is None {
        None
    } else if p.recorded->Ok_0->0 == LocalEntryKind::Symlink {
        Some("下载路径不一致，且数据库旧路径是符号链接："@ + "file_id="@ + file_id)
    } else if p.recorded_owner is Err {
        Some("下载路径不一致，且无法核验数据库旧路径身份："@ + "file_id="@ + file_id + ", error="@ + p.recorded_owner->Err_0@)
    } else if opt_str(p.recorded_owner->Ok_0) == Some(file_id) {
        Some("下载路径不一致，且新旧路径同时携带同一 fileId，拒绝把复制误判为移动："@ + "file_id="@ + file_id)
    } else {
        None
    }
}

/// A configuration error: `prefix`, the file id, and the detail if any.
fn moved_error(prefix: &str, file_id: &str, detail: Option<&str>) -> (r: Result<(), AppError>)
    ensures
        r matches Err(e) && config_with(e, match detail {
            Some(d) => prefix@ + "file_id="@ + file_id@ + ", error="@ + d@,
            None => prefix@ + "file_id="@ + file_id@,
        }),
{
    let mut m = prefix.to_owned().concat("file_id=").concat(file_id);
    if let Some(d) = detail {
        m = m.concat(", error=").concat(d);
    }
    Err(AppError::config(m.as_str()))
}

/// Accept the requested path of a file whose baseline lies elsewhere only
/// when the probe shows a local move of the same file.
pub fn check_moved_target(file_id: &str, probe: &MovedTargetProbe) -> (r: Result<(), AppError>)
    ensures
        match moved_target_problem(file_id@, *probe) {
            Some(m) => r matches Err(e) && config_with(e, m),
            None => r is Ok,
        },
{
    match &probe.requested_parents {
        Err(e) => return moved_error("下载路径不一致，且请求目标父目录不安全：", file_id, Some(e.as_str())),
        Ok(()) => {},
    }
    match &probe.requested {
        Err(e) => return moved_error("下载路径不一致，且无法读取请求目标：", file_id, Some(e.as_str())),
        Ok(LocalEntryKind::File { .. }) => {},
        Ok(_) => return moved_error("下载路径不一致，且请求目标不是安全的普通文件：", file_id, None),
    }
    match &probe.requested_owner {
        Err(e) => return moved_error("下载路径不一致，且无法核验请求目标身份：", file_id, Some(e.as_str())),
        Ok(Some(o)) => if !crate::paths::str_equal(o.as_str(), file_id) {
            return moved_error("下载路径不一致，且请求目标 fileId 不匹配：", file_id, None);
        },
        Ok(None) => return moved_error("下载路径不一致，且请求目标 fileId 不匹配：", file_id, None),
    }
    match &probe.recorded_parents {
        Err(e) => return moved_error("下载路径不一致，且数据库旧路径父目录不安全：", file_id, Some(e.as_str())),
        Ok(()) => {},
    }
    match &probe.recorded {
        Err(e) => moved_error("下载路径不一致，且无法确认数据库旧路径已消失：", file_id, Some(e.as_str())),
        Ok(None) => Ok(()),
        Ok(Some(LocalEntryKind::Symlink)) => moved_error("下载路径不一致，且数据库旧路径是符号链接：", file_id, None),
        Ok(Some(_)) => match &probe.recorded_owner {
            Err(e) => moved_error("下载路径不一致，且无法核验数据库旧路径身份：", file_id, Some(e.as_str())),
            Ok(Some(o)) => if crate::paths::str_equal(o.as_str(), file_id) {
                moved_error("下载路径不一致，且新旧路径同时携带同一 fileId，拒绝把复制误判为移动：", file_id, None)
            } else {
                Ok(())
            },
            Ok(None) => Ok(()),
        },
    }
}

/// What one parent folder on the way to a download target shows.
#[derive(Debug)]
pub enum ParentStep {
    /// Go on with the next parent.
    Continue,
    /// The rest of the chain is missing, which is allowed: the chain is safe.
    Safe,
    /// The chain is refused.
    Refused(AppError),
}

/// A path that could not be read: whether it is missing, and the message.
#[derive(Debug)]
pub struct ReadFailure {
    pub not_found: bool,
    pub message: String,
}

/// Check one parent folder (`shown` is how its path is named in messages):
/// it must be a folder and no link; a missing one ends the check when that
/// is allowed.
pub fn parent_chain_step(read: Result<LocalEntryKind, ReadFailure>, allow_missing: bool, shown: &str) -> (r: ParentStep)
    ensures
        match read {
            Ok(k) => if k == LocalEntryKind::Directory {
                r is Continue
            } else {
                r matches ParentStep::Refused(e) && config_with(e, "按需下载目标父目录不安全："@ + shown@)
            },
            Err(f) => if f.not_found && allow_missing {
                r is Safe
            } else {
                r matches ParentStep::Refused(e) && config_with(e, "无法核验按需下载目标父目录（"@ + shown@ + "）："@ + f.message@)
            },
        },
{
    match read {
        Ok(LocalEntryKind::Directory) => ParentStep::Continue,
        Ok(_) => ParentStep::Refused(AppError::config("按需下载目标父目录不安全：".to_owned().concat(shown).as_str())),
        Err(f) => if f.not_found && allow_missing {
            ParentStep::Safe
        } else {
            ParentStep::Refused(AppError::config(
                "无法核验按需下载目标父目录（".to_owned().concat(shown).concat("）：").concat(f.message.as_str()).as_str(),
            ))
        },
    }
}

// ----- a request blocked by another task -----

/// What to do about the task that blocked a hydration.
#[derive(Debug, PartialEq, Eq)]
pub enum BlockedHydration {
    /// Retry the failed task: it is exactly this download.
    Retry,
    /// Take this disposition (none: keep the one reported).
    Observe(Option<TaskDisposition>),
}

/// Decide about the task that blocked a hydration: a failed task is retried
/// only when it is exactly the requested download; another task is observed
/// when it is the same download, and left alone otherwise.
pub fn blocked_hydration(current: Option<&TransferTask>, requested: &TransferTask) -> (r: Result<BlockedHydration, AppError>)
    ensures
        match current {
            None => r matches Err(e) && generic_with(e, "按需下载任务已不存在"@),
            Some(t) => match state_of_code(t.state) {
                None => r matches Err(e) && generic_with(e, "按需下载任务状态无效"@),
                Some(s) => if s == TransferState::Failed {
                    if same_intent(*t, *requested) {
                        r == Ok::<BlockedHydration, AppError>(BlockedHydration::Retry)
                    } else {
                        r matches Err(e) && generic_with(e, "同一路径存在另一项失败的同步任务；拒绝因打开文件而重放非下载操作"@)
                    }
                } else if same_intent(*t, *requested) {
                    r == Ok::<BlockedHydration, AppError>(BlockedHydration::Observe(observable(s)))
                } else {
                    r == Ok::<BlockedHydration, AppError>(BlockedHydration::Observe(None))
                },
            },
        },
{
    let t = match current {
        None => return Err(AppError::generic("按需下载任务已不存在")),
        Some(t) => t,
    };
    let state = match t.state_kind() {
        None => return Err(AppError::generic("按需下载任务状态无效")),
        Some(s) => s,
    };
    let same = same_hydration_intent(t, requested);
    if state == TransferState::Failed {
        if same {
            Ok(BlockedHydration::Retry)
        } else {
            Err(AppError::generic("同一路径存在另一项失败的同步任务；拒绝因打开文件而重放非下载操作"))
        }
    } else if same {
        match observable_hydration_disposition(t) {
            Ok(d) => Ok(BlockedHydration::Observe(d)),
            Err(e) => Err(e),
        }
    } else {
        Ok(BlockedHydration::Observe(None))
    }
}

/// After a retry of the failed task was refused with `retry_error`: the
/// task as read again is observed when it is still exactly the requested
/// download and shows an observable state; otherwise the refusal stands.
pub fn after_refused_retry(observed: Option<&TransferTask>, requested: &TransferTask, retry_error: AppError) -> (r: Result<TaskDisposition, AppError>)
    ensures
        match observed {
            Some(t) => if same_intent(*t, *requested) {
                match state_of_code(t.state) {
                    None => r matches Err(e) && generic_with(e, "按需下载任务状态无效"@),
                    Some(s) => match observable(s) {
                        Some(d) => r == Ok::<TaskDisposition, AppError>(d),
                        None => r == Err::<TaskDisposition, AppError>(retry_error),
                    },
                }
            } else {
                r == Err::<TaskDisposition, AppError>(retry_error)
            },
            None => r == Err::<TaskDisposition, AppError>(retry_error),
        },
{
    match observed {
        Some(t) => if same_hydration_intent(t, requested) {
            match observable_hydration_disposition(t) {
                Err(e) => Err(e),
                Ok(Some(d)) => Ok(d),
                Ok(None) => Err(retry_error),
            }
        } else {
            Err(retry_error)
        },
        None => Err(retry_error),
    }
}

// ----- waiting for the durable task -----

/// What a waiting reader does after looking at the task again.
#[derive(Debug)]
pub enum Watch {
    /// The task settled with this disposition.
    Settled(TaskDisposition),
    /// The wait failed.
    Failed(AppError),
    /// Look again after a pause.
    Wait,
}

/// After looking at the task again (`stalled`: nothing changed for too
/// long): a missing or stalled task fails the wait; completion, waiting for
/// the network and a needed re-plan settle it; failure and cancellation fail
/// it with the task's message; anything still moving is watched further.
pub fn watch_task(task: Option<&TransferTask>, stalled: bool) -> (r: Watch)
    ensures
        match task {
            None => r matches Watch::Failed(e) && generic_with(e, "按需下载任务已不存在"@),
            Some(t) => if stalled {
                r matches Watch::Failed(e) && generic_with(e, "按需下载任务长时间没有进展，请检查网络后重新打开文件"@)
            } else {
                match state_of_code(t.state) {
                    None => r matches Watch::Failed(e) && generic_with(e, "按需下载任务状态无效"@),
                    Some(TransferState::Completed) => r matches Watch::Settled(d) && d == TaskDisposition::Completed,
                    Some(TransferState::WaitingForNetwork) => r matches Watch::Settled(d) && d == TaskDisposition::WaitingForNetwork,
                    Some(TransferState::RestartRequired) => r matches Watch::Settled(d) && d == TaskDisposition::RestartRequired,
                    Some(TransferState::Failed) | Some(TransferState::Canceled) => r matches Watch::Failed(e)
                        && generic_with(e, match t.error_message { Some(m) => m@, None => "按需下载任务未能完成"@ }),
                    _ => r is Wait,
                }
            },
        },
{
    let t = match task {
        None => return Watch::Failed(AppError::generic("按需下载任务已不存在")),
        Some(t) => t,
    };
    if stalled {
        return Watch::Failed(AppError::generic("按需下载任务长时间没有进展，请检查网络后重新打开文件"));
    }
    match t.state_kind() {
        None => Watch::Failed(AppError::generic("按需下载任务状态无效")),
        Some(TransferState::Completed) => Watch::Settled(TaskDisposition::Completed),
        Some(TransferState::WaitingForNetwork) => Watch::Settled(TaskDisposition::WaitingForNetwork),
        Some(TransferState::RestartRequired) => Watch::Settled(TaskDisposition::RestartRequired),
        Some(TransferState::Failed) | Some(TransferState::Canceled) => match &t.error_message {
            Some(m) => Watch::Failed(AppError::generic(m.as_str())),
            None => Watch::Failed(AppError::generic("按需下载任务未能完成")),
        },
        _ => Watch::Wait,
    }
}

/// What the waiting reader compares between looks: state, progress and
/// revision of the task.
pub fn observation_of(task: &TransferTask) -> (r: (i32, i64, i64))
    ensures
        r == (task.state, task.transferred, task.state_revision),
{
    (task.state, task.transferred, task.state_revision)
}

// ----- answering the kernel -----

/// How many times a read tries to get the content before giving up.
pub const HYDRATION_ATTEMPTS: usize = 8;

/// What the kernel read does after one attempt.
#[derive(Debug, PartialEq, Eq)]
pub enum ReadNext {
    /// The content is there.
    Done,
    /// Fail the read with this kernel error.
    Fail(FuseErrno),
    /// Wait for the durable task to settle, then call [`read_after_settling`].
    AwaitTask,
    /// Plan the download again.
    Again,
}

/// After asking for the content (`requested`: the disposition of the
/// durable task, or the error): a failure ends the read with its kernel
/// error; completion and waiting for the network are settled; anything
/// else waits for the task.
pub fn read_after_request(requested: Result<TaskDisposition, AppError>, attempt: usize, content_ready: bool) -> (r: ReadNext)
    requires
        attempt < HYDRATION_ATTEMPTS,
    ensures
        match requested {
            Err(e) => r == ReadNext::Fail(errno_for_error(e)),
            Ok(d) => if d == TaskDisposition::Completed || d == TaskDisposition::WaitingForNetwork {
                r == settled_read(d, attempt, content_ready)
            } else {
                r is AwaitTask
            },
        },
{
    match requested {
        Err(e) => ReadNext::Fail(hydration_error_kind(&e)),
        Ok(d) => match d {
            TaskDisposition::Completed | TaskDisposition::WaitingForNetwork => read_after_settling(Ok(d), attempt, content_ready),
            _ => ReadNext::AwaitTask,
        },
    }
}

/// The read after a settled disposition: content that is really there ends
/// it, waiting for the network fails it as unreachable, anything else plans
/// again until the attempts run out.
pub open spec fn settled_read(d: TaskDisposition, attempt: usize, content_ready: bool) -> ReadNext {
    if d == TaskDisposition::Completed && content_ready {
        ReadNext::Done
    } else if d == TaskDisposition::WaitingForNetwork {
        ReadNext::Fail(FuseErrno::HostUnreachable)
    } else if attempt + 1 < HYDRATION_ATTEMPTS {
        ReadNext::Again
    } else {
        ReadNext::Fail(FuseErrno::Io)
    }
}

/// After the durable task settled (or the wait failed): see
/// [`settled_read`]; `content_ready` says whether the target is the
/// requested file and no longer a placeholder.
pub fn read_after_settling(settled: Result<TaskDisposition, AppError>, attempt: usize, content_ready: bool) -> (r: ReadNext)
    requires
        attempt < HYDRATION_ATTEMPTS,
    ensures
        match settled {
            Err(e) => r == ReadNext::Fail(errno_for_error(e)),
            Ok(d) => r == settled_read(d, attempt, content_ready),
        },
{
    match settled {
        Err(e) => ReadNext::Fail(hydration_error_kind(&e)),
        Ok(d) => {
            if d == TaskDisposition::Completed && content_ready {
                ReadNext::Done
            } else if d == TaskDisposition::WaitingForNetwork {
                ReadNext::Fail(FuseErrno::HostUnreachable)
            } else if attempt + 1 < HYDRATION_ATTEMPTS {
                ReadNext::Again
            } else {
                ReadNext::Fail(FuseErrno::Io)
            }
        },
    }
}

/// A read ends successfully only with content that is really there.
pub proof fn reads_succeed_only_with_content(d: TaskDisposition, attempt: usize, content_ready: bool)
    ensures
        settled_read(d, attempt, content_ready) is Done ==> d == TaskDisposition::Completed && content_ready,
        attempt + 1 >= HYDRATION_ATTEMPTS ==> !(settled_read(d, attempt, content_ready) is Again),
{
}

} // verus!
