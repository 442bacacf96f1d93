//! Durable transfer tasks: their lifecycle states, operations, error kinds and
//! the persisted record.

use vstd::prelude::*;

verus! {

/// Lifecycle state of a durable transfer task.
#[derive(Debug, Clone, Copy, PartialEq, Eq, Structural)]
pub enum TransferState {
    Pending,
    Running,
    WaitingForNetwork,
    BackingOff,
    VerifyingRemote,
    RestartRequired,
    Completed,
    Failed,
    Canceled,
}

/// Persisted code of a state.
pub open spec fn state_code(s: TransferState) -> i32 {
    match s {
        TransferState::Pending => 0,
        TransferState::Running => 1,
        TransferState::WaitingForNetwork => 2,
        TransferState::BackingOff => 3,
        TransferState::VerifyingRemote => 4,
        TransferState::RestartRequired => 5,
        TransferState::Completed => 6,
        TransferState::Failed => 7,
        TransferState::Canceled => 8,
    }
}

/// State with a persisted code, if the code is known.
pub open spec fn state_of_code(code: i32) -> Option<TransferState> {
    if code == 0 { Some(TransferState::Pending) }
    else if code == 1 { Some(TransferState::Running) }
    else if code == 2 { Some(TransferState::WaitingForNetwork) }
    else if code == 3 { Some(TransferState::BackingOff) }
    else if code == 4 { Some(TransferState::VerifyingRemote) }
    else if code == 5 { Some(TransferState::RestartRequired) }
    else if code == 6 { Some(TransferState::Completed) }
    else if code == 7 { Some(TransferState::Failed) }
    else if code == 8 { Some(TransferState::Canceled) }
    else { None }
}

impl TransferState {
    /// Persisted code.
    pub fn code(self) -> (c: i32)
        ensures
            c == state_code(self),
    {
        match self {
            TransferState::Pending => 0,
            TransferState::Running => 1,
            TransferState::WaitingForNetwork => 2,
            TransferState::BackingOff => 3,
            TransferState::VerifyingRemote => 4,
            TransferState::RestartRequired => 5,
            TransferState::Completed => 6,
            TransferState::Failed => 7,
            TransferState::Canceled => 8,
        }
    }

    /// State of a persisted code; `None` for an unknown code.
    pub fn from_code(code: i32) -> (s: Option<TransferState>)
        ensures
            s == state_of_code(code),
    {
        if code == 0 { Some(TransferState::Pending) }
        else if code == 1 { Some(TransferState::Running) }
        else if code == 2 { Some(TransferState::WaitingForNetwork) }
        else if code == 3 { Some(TransferState::BackingOff) }
        else if code == 4 { Some(TransferState::VerifyingRemote) }
        else if code == 5 { Some(TransferState::RestartRequired) }
        else if code == 6 { Some(TransferState::Completed) }
        else if code == 7 { Some(TransferState::Failed) }
        else if code == 8 { Some(TransferState::Canceled) }
        else { None }
    }
}

/// Decoding a code gives back the encoded state.
pub proof fn lemma_state_code_roundtrip(s: TransferState)
    ensures
        state_of_code(state_code(s)) == Some(s),
{
}

/// What a transfer task does.
#[derive(Debug, Clone, Copy, PartialEq, Eq, Structural)]
pub enum TransferOperation {
    Create,
    Update,
    Delete,
    Move,
    Rename,
    CreateFolder,
    Download,
    DownloadUpdate,
}

/// Persisted code of an operation.
pub open spec fn operation_code(o: TransferOperation) -> i32 {
    match o {
        TransferOperation::Create => 0,
        TransferOperation::Update => 1,
        TransferOperation::Delete => 2,
        TransferOperation::Move => 3,
        TransferOperation::Rename => 4,
        TransferOperation::CreateFolder => 5,
        TransferOperation::Download => 6,
        TransferOperation::DownloadUpdate => 7,
    }
}

/// Operation with a persisted code, if the code is known.
pub open spec fn operation_of_code(code: i32) -> Option<TransferOperation> {
    if code == 0 { Some(TransferOperation::Create) }
    else if code == 1 { Some(TransferOperation::Update) }
    else if code == 2 { Some(TransferOperation::Delete) }
    else if code == 3 { Some(TransferOperation::Move) }
    else if code == 4 { Some(TransferOperation::Rename) }
    else if code == 5 { Some(TransferOperation::CreateFolder) }
    else if code == 6 { Some(TransferOperation::Download) }
    else if code == 7 { Some(TransferOperation::DownloadUpdate) }
    else { None }
}

impl TransferOperation {
    /// Persisted code.
    pub fn code(self) -> (c: i32)
        ensures
            c == operation_code(self),
    {
        match self {
            TransferOperation::Create => 0,
            TransferOperation::Update => 1,
            TransferOperation::Delete => 2,
            TransferOperation::Move => 3,
            TransferOperation::Rename => 4,
            TransferOperation::CreateFolder => 5,
            TransferOperation::Download => 6,
            TransferOperation::DownloadUpdate => 7,
        }
    }

    /// Operation of a persisted code; `None` for an unknown code.
    pub fn from_code(code: i32) -> (o: Option<TransferOperation>)
        ensures
            o == operation_of_code(code),
    {
        if code == 0 { Some(TransferOperation::Create) }
        else if code == 1 { Some(TransferOperation::Update) }
        else if code == 2 { Some(TransferOperation::Delete) }
        else if code == 3 { Some(TransferOperation::Move) }
        else if code == 4 { Some(TransferOperation::Rename) }
        else if code == 5 { Some(TransferOperation::CreateFolder) }
        else if code == 6 { Some(TransferOperation::Download) }
        else if code == 7 { Some(TransferOperation::DownloadUpdate) }
        else { None }
    }
}

/// Decoding a code gives back the encoded operation.
pub proof fn lemma_operation_code_roundtrip(o: TransferOperation)
    ensures
        operation_of_code(operation_code(o)) == Some(o),
{
}

/// Classification of a transfer failure.
#[derive(Debug, Clone, Copy, PartialEq, Eq, Structural)]
pub enum TransferErrorKind {
    Network,
    Timeout,
    Auth,
    Quota,
    RateLimit,
    Server,
    Validation,
    Permission,
    SessionExpired,
    RemoteAmbiguous,
    Unknown,
}

/// Persisted code of an error kind.
pub open spec fn error_kind_code(k: TransferErrorKind) -> i32 {
    match k {
        TransferErrorKind::Network => 0,
        TransferErrorKind::Timeout => 1,
        TransferErrorKind::Auth => 2,
        TransferErrorKind::Quota => 3,
        TransferErrorKind::RateLimit => 4,
        TransferErrorKind::Server => 5,
        TransferErrorKind::Validation => 6,
        TransferErrorKind::Permission => 7,
        TransferErrorKind::SessionExpired => 8,
        TransferErrorKind::RemoteAmbiguous => 9,
        TransferErrorKind::Unknown => 10,
    }
}

impl TransferErrorKind {
    /// Persisted code.
    pub fn code(self) -> (c: i32)
        ensures
            c == error_kind_code(self),
    {
        match self {
            TransferErrorKind::Network => 0,
            TransferErrorKind::Timeout => 1,
            TransferErrorKind::Auth => 2,
            TransferErrorKind::Quota => 3,
            TransferErrorKind::RateLimit => 4,
            TransferErrorKind::Server => 5,
            TransferErrorKind::Validation => 6,
            TransferErrorKind::Permission => 7,
            TransferErrorKind::SessionExpired => 8,
            TransferErrorKind::RemoteAmbiguous => 9,
            TransferErrorKind::Unknown => 10,
        }
    }
}

/// Transfer direction code: upload.
pub const DIRECTION_UPLOAD: i32 = 0;
/// Transfer direction code: first download of a file.
pub const DIRECTION_DOWNLOAD: i32 = 1;
/// Transfer direction code: download that replaces existing local content.
pub const DIRECTION_DOWNLOAD_UPDATE: i32 = 2;

/// A persisted transfer task.
#[derive(Debug)]
pub struct TransferTask {
    pub id: i64,
    pub direction: i32,
    pub file_id: Option<String>,
    pub local_path: Option<String>,
    pub name: String,
    pub total_size: i64,
    pub transferred: i64,
    pub state: i32,
    pub error_message: Option<String>,
    pub created_at: i64,
    pub finished_at: Option<i64>,
    pub server_id: Option<String>,
    pub upload_id: Option<String>,
    pub resume_offset: i64,
    pub session_url: Option<String>,
    pub relative_path: Option<String>,
    pub parent_file_id: Option<String>,
    pub operation: Option<i32>,
    pub source_mtime: Option<i64>,
    pub source_size: Option<i64>,
    pub expected_cloud_edited_time: Option<i64>,
    pub attempt_count: u32,
    pub verify_attempt_count: u32,
    pub next_retry_at: Option<i64>,
    pub error_kind: Option<i32>,
    pub remote_result_file_id: Option<String>,
    pub state_revision: i64,
}

impl TransferTask {
    /// The task's state; `None` when the stored code is unknown.
    pub fn state_kind(&self) -> (s: Option<TransferState>)
        ensures
            s == state_of_code(self.state),
    {
        TransferState::from_code(self.state)
    }

    /// The task's operation: `None` when absent, `Some(None)` when the stored
    /// code is unknown.
    pub fn operation_kind(&self) -> (o: Option<Option<TransferOperation>>)
        ensures
            o == match self.operation {
                Some(code) => Some(operation_of_code(code)),
                None => None,
            },
    {
        match self.operation {
            Some(code) => Some(TransferOperation::from_code(code)),
            None => None,
        }
    }
}

} // verus!
