//! Turning planned uploads and downloads into durable transfer tasks.

use vstd::prelude::*;
use crate::hydration::{file_name, file_name_of};
use crate::model::{opt_str, SyncAction, SyncActionType};
use crate::transfer::{
    operation_code, state_code, TransferOperation, TransferState, TransferTask, DIRECTION_DOWNLOAD,
    DIRECTION_DOWNLOAD_UPDATE, DIRECTION_UPLOAD,
};

verus! {

/// Metadata of a transfer source: modification time (if known) and size.
#[derive(Debug, Clone, Copy)]
pub struct SourceMeta {
    pub mtime_ms: Option<i64>,
    pub len: u64,
}

/// The operation of a planned transfer: an upload updates the cloud file it
/// knows and creates one otherwise; a download replaces local content that
/// is there (a regular file that is not an empty placeholder).
pub open spec fn transfer_operation(a: SyncAction, has_existing_content: bool) -> TransferOperation {
    if a.action_type == SyncActionType::Upload {
        if a.file_id is Some { TransferOperation::Update } else { TransferOperation::Create }
    } else if has_existing_content {
        TransferOperation::DownloadUpdate
    } else {
        TransferOperation::Download
    }
}

/// Whether a transfer records the snapshot of its local source.
pub open spec fn records_source(op: TransferOperation) -> bool {
    op == TransferOperation::Create || op == TransferOperation::Update || op == TransferOperation::DownloadUpdate
}

/// The durable task for a planned transfer.
pub open spec fn task_for_action(
    t: TransferTask,
    a: SyncAction,
    has_existing_content: bool,
    source: Option<SourceMeta>,
    now_ms: i64,
) -> bool {
    let op = transfer_operation(a, has_existing_content);
    let src = if records_source(op) { source } else { None };
    let upload = op == TransferOperation::Create || op == TransferOperation::Update;
    &&& t.id == 0
    &&& t.direction == if upload { DIRECTION_UPLOAD } else if op == TransferOperation::Download {
        DIRECTION_DOWNLOAD } else { DIRECTION_DOWNLOAD_UPDATE }
    &&& t.file_id == a.file_id
    &&& t.local_path == a.local_path
    &&& t.name@ == match a.relative_path { Some(p) => file_name_of(p@), None => "unknown"@ }
    &&& t.total_size == if upload {
        match src { Some(m) => m.len as i64, None => 0 }
    } else {
        match a.cloud_file { Some(f) => f.size, None => 0 }
    }
    &&& t.transferred == 0
    &&& t.state == state_code(TransferState::Pending)
    &&& t.error_message is None
    &&& t.created_at == now_ms
    &&& t.finished_at is None
    &&& t.server_id is None
    &&& t.upload_id is None
    &&& t.resume_offset == 0
    &&& t.session_url is None
    &&& t.relative_path == a.relative_path
    &&& t.parent_file_id == a.parent_file_id
    &&& t.operation == Some(operation_code(op))
    &&& t.source_mtime == match src { Some(m) => m.mtime_ms, None => None }
    &&& t.source_size == match src { Some(m) => Some(m.len as i64), None => None }
    &&& t.expected_cloud_edited_time == match a.cloud_file { Some(f) => f.edited_time, None => None }
    &&& t.attempt_count == 0
    &&& t.verify_attempt_count == 0
    &&& t.next_retry_at is None
    &&& t.error_kind is None
    &&& t.remote_result_file_id is None
    &&& t.state_revision == 0
}

/// The operation of a planned transfer.
pub fn transfer_operation_for(action: &SyncAction, has_existing_content: bool) -> (op: TransferOperation)
    requires
        action.action_type == SyncActionType::Upload || action.action_type == SyncActionType::Download,
    ensures
        op == transfer_operation(*action, has_existing_content),
{
    match action.action_type {
        SyncActionType::Upload => if action.file_id.is_some() {
            TransferOperation::Update
        } else {
            TransferOperation::Create
        },
        _ => if has_existing_content {
            TransferOperation::DownloadUpdate
        } else {
            TransferOperation::Download
        },
    }
}

/// The durable task for a planned upload or download. `has_existing_content`
/// says whether the download target holds content; `source` is the metadata
/// of the local path, when it could be read; `now_ms` is the creation time.
pub fn pending_task_for_action(
    action: &SyncAction,
    has_existing_content: bool,
    source: Option<SourceMeta>,
    now_ms: i64,
) -> (t: TransferTask)
    requires
        action.action_type == SyncActionType::Upload || action.action_type == SyncActionType::Download,
    ensures
        task_for_action(t, *action, has_existing_content, source, now_ms),
{
    let op = transfer_operation_for(action, has_existing_content);
    let upload = match op {
        TransferOperation::Create | TransferOperation::Update => true,
        _ => false,
    };
    let direction = if upload {
        DIRECTION_UPLOAD
    } else {
        match op {
            TransferOperation::Download => DIRECTION_DOWNLOAD,
            _ => DIRECTION_DOWNLOAD_UPDATE,
        }
    };
    let src = match op {
        TransferOperation::Create | TransferOperation::Update | TransferOperation::DownloadUpdate => source,
        _ => None,
    };
    let source_mtime = match src {
        Some(m) => m.mtime_ms,
        None => None,
    };
    let source_size = match src {
        Some(m) => Some(m.len as i64),
        None => None,
    };
    let total_size = if upload {
        match source_size {
            Some(s) => s,
            None => 0,
        }
    } else {
        match &action.cloud_file {
            Some(f) => f.size,
            None => 0,
        }
    };
    let name = match &action.relative_path {
        Some(p) => file_name(p.as_str()),
        None => "unknown".to_owned(),
    };
    TransferTask {
        id: 0,
        direction,
        file_id: action.file_id.clone(),
        local_path: action.local_path.clone(),
        name,
        total_size,
        transferred: 0,
        state: TransferState::Pending.code(),
        error_message: None,
        created_at: now_ms,
        finished_at: None,
        server_id: None,
        upload_id: None,
        resume_offset: 0,
        session_url: None,
        relative_path: action.relative_path.clone(),
        parent_file_id: action.parent_file_id.clone(),
        operation: Some(op.code()),
        source_mtime,
        source_size,
        expected_cloud_edited_time: match &action.cloud_file {
            Some(f) => f.edited_time,
            None => None,
        },
        attempt_count: 0,
        verify_attempt_count: 0,
        next_retry_at: None,
        error_kind: None,
        remote_result_file_id: None,
        state_revision: 0,
    }
}

} // verus!
