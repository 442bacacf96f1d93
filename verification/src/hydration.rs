//! On-demand hydration of cloud files through the durable download queue:
//! intent matching, observable dispositions, metadata resolution and the
//! download task built for a request.

use vstd::prelude::*;
use crate::error::{AppError, DriveApiErrorCode, DriveTransportKind};
use crate::model::{clone_opt_string, opt_str, DriveFile, DriveFileView, SyncItem};
use crate::paths::{last_slash, safe_relative};
use crate::transfer::{operation_code, operation_of_code, state_code, state_of_code, TransferOperation,
    TransferState, TransferTask, DIRECTION_DOWNLOAD, DIRECTION_DOWNLOAD_UPDATE};

verus! {

/// Where a durable task stands for its caller.
#[derive(Debug, Clone, Copy, PartialEq, Eq, Structural)]
pub enum TaskDisposition {
    Completed,
    Pending,
    Running,
    WaitingForNetwork,
    BackingOff,
    VerifyingRemote,
    RestartRequired,
    BlockedByActiveIntent,
}

/// Final path and durable task of one hydration call.
#[derive(Debug)]
pub struct HydrationOutcome {
    local_path: String,
    task_id: i64,
    disposition: TaskDisposition,
}

impl HydrationOutcome {
    /// An outcome.
    pub fn new(local_path: String, task_id: i64, disposition: TaskDisposition) -> (o: HydrationOutcome)
        ensures
            o.local_path_view() == local_path@,
            o.task_id_view() == task_id,
            o.disposition_view() == disposition,
    {
        HydrationOutcome { local_path, task_id, disposition }
    }

    /// Path, as characters.
    pub closed spec fn local_path_view(&self) -> Seq<char> {
        self.local_path@
    }

    /// Task id.
    pub closed spec fn task_id_view(&self) -> i64 {
        self.task_id
    }

    /// Disposition.
    pub closed spec fn disposition_view(&self) -> TaskDisposition {
        self.disposition
    }

    /// Local path that will hold the complete content.
    pub fn local_path(&self) -> (p: &String)
        ensures
            p@ == self.local_path_view(),
    {
        &self.local_path
    }

    /// Id of the durable task created or reused.
    pub fn task_id(&self) -> (id: i64)
        ensures
            id == self.task_id_view(),
    {
        self.task_id
    }

    /// Where the task stands.
    pub fn disposition(&self) -> (d: TaskDisposition)
        ensures
            d == self.disposition_view(),
    {
        self.disposition
    }
}

/// The decoded operation of a task, if present and known.
pub open spec fn task_operation(t: TransferTask) -> Option<TransferOperation> {
    match t.operation {
        Some(code) => operation_of_code(code),
        None => None,
    }
}

/// An existing task carries exactly the requested download intent.
pub open spec fn same_intent(existing: TransferTask, requested: TransferTask) -> bool {
    &&& (task_operation(existing) == Some(TransferOperation::Download)
        || task_operation(existing) == Some(TransferOperation::DownloadUpdate))
    &&& task_operation(existing) == task_operation(requested)
    &&& opt_str(existing.relative_path) == opt_str(requested.relative_path)
    &&& opt_str(existing.local_path) == opt_str(requested.local_path)
    &&& existing.name@ == requested.name@
    &&& existing.direction == requested.direction
    &&& opt_str(existing.file_id) == opt_str(requested.file_id)
    &&& existing.total_size == requested.total_size
    &&& opt_str(existing.parent_file_id) == opt_str(requested.parent_file_id)
    &&& existing.expected_cloud_edited_time == requested.expected_cloud_edited_time
}

/// Equality of optional strings.
fn opt_string_equal(a: &Option<String>, b: &Option<String>) -> (r: bool)
    ensures
        r == (opt_str(*a) == opt_str(*b)),
{
    match (a, b) {
        (Some(x), Some(y)) => crate::paths::str_equal(x.as_str(), y.as_str()),
        (None, None) => true,
        _ => false,
    }
}

/// Decoded operation of a task.
fn decoded_operation(t: &TransferTask) -> (o: Option<TransferOperation>)
    ensures
        o == task_operation(*t),
{
    match t.operation {
        Some(code) => TransferOperation::from_code(code),
        None => None,
    }
}

/// Whether an existing task is exactly the requested download; a failed upload
/// or any other operation on the same path never counts.
pub fn same_hydration_intent(existing: &TransferTask, requested: &TransferTask) -> (b: bool)
    ensures
        b == same_intent(*existing, *requested),
{
    let existing_operation = decoded_operation(existing);
    let requested_operation = decoded_operation(requested);
    let is_download = match existing_operation {
        Some(TransferOperation::Download) | Some(TransferOperation::DownloadUpdate) => true,
        _ => false,
    };
    let same_operation = match (existing_operation, requested_operation) {
        (Some(a), Some(b)) => a == b,
        (None, None) => true,
        _ => false,
    };
    is_download && same_operation
        && opt_string_equal(&existing.relative_path, &requested.relative_path)
        && opt_string_equal(&existing.local_path, &requested.local_path)
        && crate::paths::str_equal(existing.name.as_str(), requested.name.as_str())
        && existing.direction == requested.direction
        && opt_string_equal(&existing.file_id, &requested.file_id)
        && existing.total_size == requested.total_size
        && opt_string_equal(&existing.parent_file_id, &requested.parent_file_id)
        && existing.expected_cloud_edited_time == requested.expected_cloud_edited_time
}

/// What a hydration may go on observing for a task state: every state but
/// the failed and canceled ones maps to its disposition.
pub open spec fn observable(state: TransferState) -> Option<TaskDisposition> {
    match state {
        TransferState::Completed => Some(TaskDisposition::Completed),
        TransferState::Pending => Some(TaskDisposition::Pending),
        TransferState::Running => Some(TaskDisposition::Running),
        TransferState::WaitingForNetwork => Some(TaskDisposition::WaitingForNetwork),
        TransferState::BackingOff => Some(TaskDisposition::BackingOff),
        TransferState::VerifyingRemote => Some(TaskDisposition::VerifyingRemote),
        TransferState::RestartRequired => Some(TaskDisposition::RestartRequired),
        TransferState::Failed | TransferState::Canceled => None,
    }
}

/// Turn the state of a task accepted concurrently into a disposition that a
/// hydration can keep observing; an unknown state code is an error.
pub fn observable_hydration_disposition(task: &TransferTask) -> (r: Result<Option<TaskDisposition>, AppError>)
    ensures
        match state_of_code(task.state) {
            Some(s) => r == Ok::<Option<TaskDisposition>, AppError>(observable(s)),
            None => r matches Err(AppError::Generic { message }) && message@ == "按需下载任务状态无效"@,
        },
{
    match task.state_kind() {
        None => Err(AppError::generic("按需下载任务状态无效")),
        Some(state) => Ok(match state {
            TransferState::Completed => Some(TaskDisposition::Completed),
            TransferState::Pending => Some(TaskDisposition::Pending),
            TransferState::Running => Some(TaskDisposition::Running),
            TransferState::WaitingForNetwork => Some(TaskDisposition::WaitingForNetwork),
            TransferState::BackingOff => Some(TaskDisposition::BackingOff),
            TransferState::VerifyingRemote => Some(TaskDisposition::VerifyingRemote),
            TransferState::RestartRequired => Some(TaskDisposition::RestartRequired),
            TransferState::Failed | TransferState::Canceled => None,
        }),
    }
}

/// Version of the local destination when the task is queued.
#[derive(Debug, Clone, Copy, PartialEq, Eq, Structural)]
pub struct DestinationSnapshot {
    pub mtime: i64,
    pub size: i64,
}

/// Trusted cloud metadata for a download task.
#[derive(Debug, PartialEq, Eq)]
pub struct HydrationMetadata {
    pub edited_time: i64,
    pub size: i64,
    pub parent_file_id: Option<String>,
}

/// Edit time: the live cloud file's, else the baseline's.
pub open spec fn meta_edited_time(cloud: Option<DriveFileView>, cached: Option<SyncItem>) -> Option<i64> {
    match cloud {
        Some(f) if f.edited_time is Some => f.edited_time,
        _ => match cached {
            Some(r) => r.cloud_edited_time,
            None => None,
        },
    }
}

/// Size: the live cloud file's when it is not negative, else the baseline's.
pub open spec fn meta_size(cloud: Option<DriveFileView>, cached: Option<SyncItem>) -> Option<i64> {
    match cloud {
        Some(f) if f.size >= 0 => Some(f.size),
        _ => match cached {
            Some(r) => Some(r.size),
            None => None,
        },
    }
}

/// Parent folder: the live cloud file's first parent, else the baseline's.
pub open spec fn meta_parent(cloud: Option<DriveFileView>, cached: Option<SyncItem>) -> Option<Seq<char>> {
    match cloud {
        Some(f) if f.first_parent() is Some => f.first_parent(),
        _ => match cached {
            Some(r) => opt_str(r.parent_folder_id),
            None => None,
        },
    }
}

/// Optional file, as a view.
pub open spec fn opt_file_ref(o: Option<&DriveFile>) -> Option<DriveFileView> {
    match o {
        Some(f) => Some(f@),
        None => None,
    }
}

/// Optional baseline, dereferenced.
pub open spec fn opt_item(o: Option<&SyncItem>) -> Option<SyncItem> {
    match o {
        Some(r) => Some(*r),
        None => None,
    }
}

/// Prefer live cloud metadata; fall back field by field to the trusted
/// baseline. A missing edit time or size is an error.
pub fn resolve_hydration_metadata(
    cloud_file: Option<&DriveFile>,
    cached_metadata: Option<&SyncItem>,
) -> (r: Result<HydrationMetadata, AppError>)
    ensures
        meta_edited_time(opt_file_ref(cloud_file), opt_item(cached_metadata)) is None ==>
            (r matches Err(AppError::Generic { message })
            && message@ == "按需下载缺少可信云端 editedTime，拒绝创建任务"@),
        meta_edited_time(opt_file_ref(cloud_file), opt_item(cached_metadata)) is Some
            && meta_size(opt_file_ref(cloud_file), opt_item(cached_metadata)) is None ==>
            (r matches Err(AppError::Generic { message })
            && message@ == "按需下载缺少可信云端文件大小，拒绝创建任务"@),
        r matches Ok(m) ==> Some(m.edited_time) == meta_edited_time(opt_file_ref(cloud_file), opt_item(cached_metadata))
            && Some(m.size) == meta_size(opt_file_ref(cloud_file), opt_item(cached_metadata))
            && opt_str(m.parent_file_id) == meta_parent(opt_file_ref(cloud_file), opt_item(cached_metadata)),
        r is Ok <==> meta_edited_time(opt_file_ref(cloud_file), opt_item(cached_metadata)) is Some
            && meta_size(opt_file_ref(cloud_file), opt_item(cached_metadata)) is Some,
{
    let live_edited = match cloud_file {
        Some(f) => f.edited_time,
        None => None,
    };
    let edited_time = match live_edited {
        Some(t) => t,
        None => {
            let cached_edited = match cached_metadata {
                Some(r) => r.cloud_edited_time,
                None => None,
            };
            match cached_edited {
                Some(t) => t,
                None => return Err(AppError::generic("按需下载缺少可信云端 editedTime，拒绝创建任务")),
            }
        },
    };
    let live_size = match cloud_file {
        Some(f) => if f.size >= 0 { Some(f.size) } else { None },
        None => None,
    };
    let size = match live_size {
        Some(s) => s,
        None => match cached_metadata {
            Some(r) => r.size,
            None => return Err(AppError::generic("按需下载缺少可信云端文件大小，拒绝创建任务")),
        },
    };
    let live_parent = match cloud_file {
        Some(f) => f.first_parent(),
        None => None,
    };
    let parent_file_id = match live_parent {
        Some(p) => Some(p),
        None => match cached_metadata {
            Some(r) => clone_opt_string(&r.parent_folder_id),
            None => None,
        },
    };
    Ok(HydrationMetadata { edited_time, size, parent_file_id })
}

/// Last `/`-separated component of a path.
pub open spec fn file_name_of(path: Seq<char>) -> Seq<char> {
    match last_slash(path) {
        Some(k) => path.subrange(k + 1, path.len() as int),
        None => path,
    }
}

/// Last `/`-separated component of a path.
pub fn file_name(path: &str) -> (name: String)
    ensures
        name@ == file_name_of(path@),
{
    let n = path.unicode_len();
    let mut i = n;
    assert(path@.take(n as int) =~= path@);
    while i > 0
        invariant
            i <= n,
            n == path@.len(),
            last_slash(path@) == last_slash(path@.take(i as int)),
        decreases i,
    {
        proof {
            assert(path@.take(i as int).drop_last() =~= path@.take(i as int - 1));
            assert(path@.take(i as int).last() == path@[i as int - 1]);
        }
        if path.get_char(i - 1) == '/' {
            return path.substring_char(i, n).to_owned();
        }
        i = i - 1;
    }
    assert(path@.take(0) =~= Seq::<char>::empty());
    assert(path@.subrange(0, n as int) =~= path@);
    path.substring_char(0, n).to_owned()
}

/// The download task a hydration request queues.
pub open spec fn download_task_spec(
    t: TransferTask,
    file_id: Seq<char>,
    relative_path: Seq<char>,
    destination: Seq<char>,
    snapshot: Option<DestinationSnapshot>,
    metadata: HydrationMetadata,
    created_at: i64,
) -> bool {
    let update = snapshot is Some;
    &&& t.id == 0
    &&& t.direction == if update { DIRECTION_DOWNLOAD_UPDATE } else { DIRECTION_DOWNLOAD }
    &&& opt_str(t.file_id) == Some(file_id)
    &&& opt_str(t.local_path) == Some(destination)
    &&& t.name@ == file_name_of(destination)
    &&& t.total_size == metadata.size
    &&& t.transferred == 0
    &&& t.state == state_code(TransferState::Pending)
    &&& t.error_message is None
    &&& t.created_at == created_at
    &&& t.finished_at is None
    &&& t.server_id is None
    &&& t.upload_id is None
    &&& t.resume_offset == 0
    &&& t.session_url is None
    &&& opt_str(t.relative_path) == Some(relative_path)
    &&& opt_str(t.parent_file_id) == opt_str(metadata.parent_file_id)
    &&& t.operation == Some(operation_code(if update { TransferOperation::DownloadUpdate } else { TransferOperation::Download }))
    &&& t.source_mtime == match snapshot { Some(s) => Some(s.mtime), None => None }
    &&& t.source_size == match snapshot { Some(s) => Some(s.size), None => None }
    &&& t.expected_cloud_edited_time == Some(metadata.edited_time)
    &&& t.attempt_count == 0
    &&& t.verify_attempt_count == 0
    &&& t.next_retry_at is None
    &&& t.error_kind is None
    &&& t.remote_result_file_id is None
    &&& t.state_revision == 0
}

/// Build the Download (or DownloadUpdate, when the destination already holds
/// content) intent of the transfer contract.
pub fn build_download_task(
    file_id: &str,
    relative_path: &str,
    destination: &str,
    destination_snapshot: Option<DestinationSnapshot>,
    metadata: HydrationMetadata,
    created_at: i64,
) -> (t: TransferTask)
    ensures
        download_task_spec(t, file_id@, relative_path@, destination@, destination_snapshot, metadata, created_at),
{
    let is_update = destination_snapshot.is_some();
    let operation = if is_update { TransferOperation::DownloadUpdate } else { TransferOperation::Download };
    let direction = if is_update { DIRECTION_DOWNLOAD_UPDATE } else { DIRECTION_DOWNLOAD };
    let ghost meta = metadata;
    TransferTask {
        id: 0,
        direction,
        file_id: Some(file_id.to_owned()),
        local_path: Some(destination.to_owned()),
        name: file_name(destination),
        total_size: metadata.size,
        transferred: 0,
        state: TransferState::Pending.code(),
        error_message: None,
        created_at,
        finished_at: None,
        server_id: None,
        upload_id: None,
        resume_offset: 0,
        session_url: None,
        relative_path: Some(relative_path.to_owned()),
        parent_file_id: metadata.parent_file_id,
        operation: Some(operation.code()),
        source_mtime: match destination_snapshot { Some(s) => Some(s.mtime), None => None },
        source_size: match destination_snapshot { Some(s) => Some(s.size), None => None },
        expected_cloud_edited_time: Some(metadata.edited_time),
        attempt_count: 0,
        verify_attempt_count: 0,
        next_retry_at: None,
        error_kind: None,
        remote_result_file_id: None,
        state_revision: 0,
    }
}


/// Check that a relative path is safe to join under the mount root.
pub fn validate_relative_path(path: &str, allow_empty: bool) -> (r: Result<(), AppError>)
    ensures
        r is Ok <==> ((allow_empty && path@.len() == 0) || safe_relative(path@)),
        r matches Err(e) ==> (e matches AppError::Config { message } && message@ == "不安全的相对路径"@),
{
    if crate::paths::is_safe_relative_path(path, allow_empty) {
        Ok(())
    } else {
        Err(AppError::config("不安全的相对路径"))
    }
}

/// How a hydration destination is determined.
#[derive(Debug)]
pub enum DestinationPlan {
    /// Use this relative path.
    Direct(String),
    /// The request names another path than the baseline: use the requested
    /// path only after checking on disk that the same file moved there.
    VerifyPendingMove { requested: String, recorded: String },
}

/// Constrain the requested path by the baseline's identity: without a
/// baseline, or with one at the same path, the path is used as it is;
/// otherwise the move must be checked before the requested path is used.
pub fn plan_destination(requested_relative_path: &str, record: Option<&SyncItem>) -> (r: Result<DestinationPlan, AppError>)
    ensures
        !safe_relative(requested_relative_path@) ==> r is Err,
        r is Ok <==> safe_relative(requested_relative_path@)
            && (record matches Some(rec) ==> safe_relative(rec.local_path@)),
        r matches Ok(DestinationPlan::Direct(p)) ==> p@ == requested_relative_path@
            && (record matches Some(rec) ==> rec.local_path@ == requested_relative_path@),
        r matches Ok(DestinationPlan::VerifyPendingMove { requested, recorded }) ==>
            requested@ == requested_relative_path@
            && (record matches Some(rec) && rec.local_path@ == recorded@ && recorded@ != requested@),
        (r is Ok && record is None) ==> r matches Ok(DestinationPlan::Direct(_)),
        r matches Err(e) ==> e is Config,
{
    match validate_relative_path(requested_relative_path, false) {
        Ok(()) => {},
        Err(e) => return Err(e),
    }
    match record {
        Some(rec) => {
            match validate_relative_path(rec.local_path.as_str(), false) {
                Ok(()) => {},
                Err(e) => return Err(e),
            }
            if crate::paths::str_equal(rec.local_path.as_str(), requested_relative_path) {
                Ok(DestinationPlan::Direct(rec.local_path.clone()))
            } else {
                Ok(DestinationPlan::VerifyPendingMove {
                    requested: requested_relative_path.to_owned(),
                    recorded: rec.local_path.clone(),
                })
            }
        },
        None => Ok(DestinationPlan::Direct(requested_relative_path.to_owned())),
    }
}

/// The kernel error a failed or unfinished hydration reports to the reader.
#[derive(Debug, Clone, Copy, PartialEq, Eq, Structural)]
pub enum FuseErrno {
    /// Nothing to report: the content is there.
    Success,
    /// An input/output failure that a retry will not fix.
    Io,
    /// The network is unreachable; the reader may retry later.
    HostUnreachable,
    /// Temporarily unavailable; the reader may retry.
    Again,
}

/// The kernel error for a hydration error: a network failure is unreachable
/// (a body that could not be decoded is an I/O failure); a rate limit, time
/// out or server error is temporary; anything else is an I/O failure.
pub open spec fn errno_for_error(error: AppError) -> FuseErrno {
    match error {
        AppError::DriveApi { code, transport_kind, status_code, .. } =>
            if code == DriveApiErrorCode::Network {
                if transport_kind == Some(DriveTransportKind::Decode) { FuseErrno::Io } else { FuseErrno::HostUnreachable }
            } else if status_code matches Some(s) && (s == 408 || s == 425 || s == 429 || (500 <= s && s <= 599)) {
                FuseErrno::Again
            } else {
                FuseErrno::Io
            },
        _ => FuseErrno::Io,
    }
}

/// The kernel error for a hydration error.
pub fn hydration_error_kind(error: &AppError) -> (r: FuseErrno)
    ensures
        r == errno_for_error(*error),
{
    match error {
        AppError::DriveApi { code, transport_kind, status_code, .. } => {
            if let DriveApiErrorCode::Network = code {
                return match transport_kind {
                    Some(DriveTransportKind::Decode) => FuseErrno::Io,
                    _ => FuseErrno::HostUnreachable,
                };
            }
            match status_code {
                Some(s) => if *s == 408 || *s == 425 || *s == 429 || (500 <= *s && *s <= 599) {
                    FuseErrno::Again
                } else {
                    FuseErrno::Io
                },
                None => FuseErrno::Io,
            }
        },
        _ => FuseErrno::Io,
    }
}

/// The kernel hint for an unfinished durable task: waiting for the network is
/// unreachable, anything else still moving is temporary.
pub open spec fn errno_for_disposition(d: TaskDisposition) -> FuseErrno {
    match d {
        TaskDisposition::Completed => FuseErrno::Success,
        TaskDisposition::WaitingForNetwork => FuseErrno::HostUnreachable,
        _ => FuseErrno::Again,
    }
}

/// The kernel hint for a durable task's disposition.
pub fn hydration_disposition_kind(disposition: TaskDisposition) -> (r: FuseErrno)
    ensures
        r == errno_for_disposition(disposition),
{
    match disposition {
        TaskDisposition::Completed => FuseErrno::Success,
        TaskDisposition::WaitingForNetwork => FuseErrno::HostUnreachable,
        _ => FuseErrno::Again,
    }
}

/// The platform's kernel error numbers that reads report.
#[derive(Debug, Clone, Copy, PartialEq, Eq, Structural)]
pub struct ErrnoTable {
    /// `EIO`: an input/output failure.
    pub io: i32,
    /// `EHOSTUNREACH`: the network is unreachable.
    pub unreachable: i32,
    /// `EAGAIN`: temporarily unavailable.
    pub again: i32,
}

impl ErrnoTable {
    /// Error numbers are never zero (zero reports success) and name
    /// different errors.
    pub open spec fn wf(self) -> bool {
        &&& self.io != 0 && self.unreachable != 0 && self.again != 0
        &&& self.io != self.unreachable && self.io != self.again && self.unreachable != self.again
    }

    /// The number reported for a kernel error: zero for success.
    pub open spec fn code(self, kind: FuseErrno) -> i32 {
        match kind {
            FuseErrno::Success => 0,
            FuseErrno::Io => self.io,
            FuseErrno::HostUnreachable => self.unreachable,
            FuseErrno::Again => self.again,
        }
    }

    /// The numbers of the platform the library runs on.
    pub fn platform() -> (t: ErrnoTable)
        ensures
            t.wf(),
    {
        platform_errnos()
    }
}

/// libc's `EIO`, `EHOSTUNREACH` and `EAGAIN` of the target platform. The
/// contract claims what the libc crate shows for every target: each is
/// nonzero and the three differ. Their values are not stated: they differ
/// between platforms.
#[verifier::external_body]
fn platform_errnos() -> (t: ErrnoTable)
    ensures
        t.wf(),
{
    ErrnoTable { io: libc::EIO, unreachable: libc::EHOSTUNREACH, again: libc::EAGAIN }
}

/// The platform's number for a kernel error, from the table of the
/// platform's numbers: zero for success.
pub fn errno_code(table: &ErrnoTable, kind: FuseErrno) -> (r: i32)
    ensures
        r == table.code(kind),
        table.wf() ==> (r == 0 <==> kind == FuseErrno::Success),
{
    match kind {
        FuseErrno::Success => 0,
        FuseErrno::Io => table.io,
        FuseErrno::HostUnreachable => table.unreachable,
        FuseErrno::Again => table.again,
    }
}

/// The kernel error number for a hydration error: unreachable for a network
/// failure, temporarily unavailable for a rate limit, time-out or server
/// error, an I/O failure otherwise; never zero.
pub fn hydration_error_errno(table: &ErrnoTable, error: &AppError) -> (r: i32)
    ensures
        r == table.code(errno_for_error(*error)),
        table.wf() ==> r != 0,
{
    errno_code(table, hydration_error_kind(error))
}

/// The kernel error number for a durable task's disposition: zero exactly
/// when the task completed, unreachable while it waits for the network,
/// temporarily unavailable otherwise.
pub fn hydration_disposition_errno(table: &ErrnoTable, disposition: TaskDisposition) -> (r: i32)
    ensures
        r == table.code(errno_for_disposition(disposition)),
        table.wf() ==> (r == 0 <==> disposition == TaskDisposition::Completed),
{
    errno_code(table, hydration_disposition_kind(disposition))
}

} // verus!
