//! The steps of deleting local content whose cloud file is gone, as a
//! machine that the executor runs.
//!
//! The local content is removed only while it still matches the persisted
//! baselines (checked before and again after the cloud is asked), and, when
//! the action names a cloud file, only once the drive confirms that file is
//! deleted. A record still waiting for its first upload has no cloud fact to
//! check and is never deleted here.

use vstd::prelude::*;
use crate::guards::{first_duplicate, has_duplicate_path, repeated_local_path};
use crate::model::{is_pending_file_id, opt_str, pending_prefix, SyncAction, SyncItem};
use crate::paths::has_prefix;
use crate::settlement::ActionResult;

verus! {

/// The command in flight.
#[derive(Debug)]
pub enum DeleteStage {
    /// Loading the persisted baselines.
    LoadingBaselines,
    /// Checking whether the local path exists.
    Probing,
    /// Checking the local content against the baselines.
    Verifying,
    /// Asking the drive whether the cloud file is deleted; `exists` says
    /// whether the local path was there.
    ConfirmingRemote { exists: bool },
    /// Checking again whether the local path exists, after the drive answered.
    Reprobing,
    /// Checking the local content against the baselines again.
    Reverifying,
    /// Removing the local content.
    Deleting,
    /// Done.
    Finished,
}

/// What the executor does next.
#[derive(Debug)]
pub enum DeleteCommand {
    /// Load the persisted baselines.
    LoadBaselines,
    /// Check whether the local path exists.
    ProbePath,
    /// Check the local content against the baselines; an empty placeholder
    /// without a baseline passes when `allow_orphan_placeholder`.
    VerifySnapshot { allow_orphan_placeholder: bool },
    /// Ask the drive whether this file is deleted.
    ConfirmRemoteDeleted { file_id: String },
    /// Remove the local content.
    DeleteLocal,
    /// Report the result.
    Finish(ActionResult),
}

/// What came of a command.
#[derive(Debug)]
pub enum DeleteEvent {
    /// The command succeeded (the path exists, the content matches, the
    /// content was removed).
    Done,
    /// The local path does not exist.
    Absent,
    /// The command failed, with this message.
    Failed(String),
    /// The executor lacks what the command needs, with this message.
    Unavailable(String),
    /// The persisted baselines.
    Baselines(Vec<SyncItem>),
    /// The drive's answer: whether the file is deleted.
    RemoteDeleted(bool),
}

/// Whether `event` can come of the command in flight at `stage`.
pub open spec fn delete_fits(stage: DeleteStage, event: DeleteEvent) -> bool {
    match stage {
        DeleteStage::Finished => false,
        DeleteStage::LoadingBaselines => event is Baselines || event is Failed || event is Unavailable,
        DeleteStage::Probing | DeleteStage::Reprobing => event is Done || event is Absent || event is Failed,
        DeleteStage::ConfirmingRemote { .. } => event is RemoteDeleted || event is Failed,
        _ => event is Done || event is Failed,
    }
}

/// The report: success, or failure with this message, retried later when
/// `deferred`.
pub open spec fn reports(c: DeleteCommand, success: bool, message: Option<Seq<char>>, deferred: bool) -> bool {
    match c {
        DeleteCommand::Finish(r) => r.success == success && r.deferred == deferred && r.cloud_file is None
            && opt_str(r.error_message) == message,
        _ => false,
    }
}

/// A deferred failure with this message.
pub open spec fn refuses(c: DeleteCommand, message: Seq<char>) -> bool {
    reports(c, false, Some(message), true)
}

/// A success.
pub open spec fn succeeds(c: DeleteCommand) -> bool {
    reports(c, true, None, false)
}

/// After the local check (the path `exists` or not): a named cloud file
/// must be confirmed deleted first; otherwise an existing path is checked
/// again and a missing one needs nothing.
pub open spec fn after_local_check(action: SyncAction, exists: bool, next: DeleteStage, cmd: DeleteCommand) -> bool {
    match action.file_id {
        Some(f) => if has_prefix(f@, pending_prefix()) {
            next is Finished && refuses(cmd, "待上传记录没有可核验的远端删除事实"@)
        } else {
            next == (DeleteStage::ConfirmingRemote { exists })
                && (cmd matches DeleteCommand::ConfirmRemoteDeleted { file_id } && file_id@ == f@)
        },
        None => if exists {
            next is Reprobing && cmd is ProbePath
        } else {
            next is Finished && succeeds(cmd)
        },
    }
}

/// One step of the machine for `action`: the next stage and command after
/// `event` at `stage`.
pub open spec fn delete_steps_to(action: SyncAction, stage: DeleteStage, event: DeleteEvent, next: DeleteStage, cmd: DeleteCommand) -> bool {
    let verify = DeleteCommand::VerifySnapshot { allow_orphan_placeholder: action.file_id is None };
    match stage {
        DeleteStage::LoadingBaselines => match event {
            DeleteEvent::Unavailable(m) => next is Finished && reports(cmd, false, Some(m@), false),
            DeleteEvent::Failed(e) => next is Finished && refuses(cmd, "读取同步基线失败，保留本地内容："@ + e@),
            DeleteEvent::Baselines(records) => if has_duplicate_path(records@) {
                next is Finished && refuses(cmd, "同步基线存在重复路径，拒绝删除："@ + first_duplicate(records@))
            } else {
                next is Probing && cmd is ProbePath
            },
            _ => true,
        },
        DeleteStage::Probing => match event {
            DeleteEvent::Absent => after_local_check(action, false, next, cmd),
            DeleteEvent::Failed(e) => next is Finished && refuses(cmd, "无法读取待删除路径，保留本地内容："@ + e@),
            DeleteEvent::Done => next is Verifying && cmd == verify,
            _ => true,
        },
        DeleteStage::Verifying => match event {
            DeleteEvent::Done => after_local_check(action, true, next, cmd),
            DeleteEvent::Failed(e) => next is Finished && refuses(cmd, e@),
            _ => true,
        },
        DeleteStage::ConfirmingRemote { exists } => match event {
            DeleteEvent::RemoteDeleted(gone) => if !gone {
                next is Finished && refuses(cmd, "云端文件仍存在，取消本地删除并等待重新规划"@)
            } else if exists {
                next is Reprobing && cmd is ProbePath
            } else {
                next is Finished && succeeds(cmd)
            },
            DeleteEvent::Failed(e) => next is Finished && refuses(cmd, "无法确认云端已删除，保留本地内容："@ + e@),
            _ => true,
        },
        DeleteStage::Reprobing => match event {
            DeleteEvent::Absent => next is Finished && succeeds(cmd),
            DeleteEvent::Failed(e) => next is Finished && refuses(cmd, "远端核验后无法读取待删除路径，保留本地内容："@ + e@),
            DeleteEvent::Done => next is Reverifying && cmd == verify,
            _ => true,
        },
        DeleteStage::Reverifying => match event {
            DeleteEvent::Done => next is Deleting && cmd is DeleteLocal,
            DeleteEvent::Failed(e) => next is Finished && refuses(cmd, "远端核验期间本地内容发生变化，已取消删除："@ + e@),
            _ => true,
        },
        DeleteStage::Deleting => match event {
            DeleteEvent::Done => next is Finished && succeeds(cmd),
            DeleteEvent::Failed(e) => next is Finished && refuses(cmd, e@),
            _ => true,
        },
        DeleteStage::Finished => true,
    }
}

/// A report.
fn report(success: bool, message: Option<String>, deferred: bool) -> (c: DeleteCommand)
    ensures
        reports(c, success, opt_str(message), deferred),
{
    DeleteCommand::Finish(ActionResult { success, error_message: message, deferred, cloud_file: None })
}

/// A deferred failure with `prefix` followed by `detail`.
fn refusal(prefix: &str, detail: &str) -> (c: DeleteCommand)
    ensures
        refuses(c, prefix@ + detail@),
{
    report(false, Some(prefix.to_owned().concat(detail)), true)
}

/// The step after the local check.
fn after_check(action: &SyncAction, exists: bool) -> (r: (DeleteStage, DeleteCommand))
    ensures
        after_local_check(*action, exists, r.0, r.1),
{
    match &action.file_id {
        Some(f) => if is_pending_file_id(f.as_str()) {
            (DeleteStage::Finished, report(false, Some("待上传记录没有可核验的远端删除事实".to_owned()), true))
        } else {
            (DeleteStage::ConfirmingRemote { exists }, DeleteCommand::ConfirmRemoteDeleted { file_id: f.clone() })
        },
        None => if exists {
            (DeleteStage::Reprobing, DeleteCommand::ProbePath)
        } else {
            (DeleteStage::Finished, report(true, None, false))
        },
    }
}

/// Start deleting the local content of `action`: with no local path there
/// is nothing to remove; otherwise the baselines are loaded first.
pub fn begin_local_delete(action: &SyncAction) -> (r: (DeleteStage, DeleteCommand))
    ensures
        action.local_path is None ==> r.0 is Finished && succeeds(r.1),
        action.local_path is Some ==> r.0 is LoadingBaselines && r.1 is LoadBaselines,
{
    match &action.local_path {
        None => (DeleteStage::Finished, report(true, None, false)),
        Some(_) => (DeleteStage::LoadingBaselines, DeleteCommand::LoadBaselines),
    }
}

/// The next stage and command after `event` at `stage`.
pub fn local_delete_step(action: &SyncAction, stage: DeleteStage, event: DeleteEvent) -> (r: (DeleteStage, DeleteCommand))
    requires
        delete_fits(stage, event),
    ensures
        delete_steps_to(*action, stage, event, r.0, r.1),
{
    let allow = action.file_id.is_none();
    match stage {
        DeleteStage::LoadingBaselines => match event {
            DeleteEvent::Unavailable(m) => (DeleteStage::Finished, report(false, Some(m), false)),
            DeleteEvent::Failed(e) => (DeleteStage::Finished, refusal("读取同步基线失败，保留本地内容：", e.as_str())),
            DeleteEvent::Baselines(records) => match repeated_local_path(&records) {
                Some(p) => (DeleteStage::Finished, refusal("同步基线存在重复路径，拒绝删除：", p.as_str())),
                None => (DeleteStage::Probing, DeleteCommand::ProbePath),
            },
            _ => (DeleteStage::Finished, DeleteCommand::LoadBaselines),
        },
        DeleteStage::Probing => match event {
            DeleteEvent::Absent => after_check(action, false),
            DeleteEvent::Failed(e) => (DeleteStage::Finished, refusal("无法读取待删除路径，保留本地内容：", e.as_str())),
            _ => (DeleteStage::Verifying, DeleteCommand::VerifySnapshot { allow_orphan_placeholder: allow }),
        },
        DeleteStage::Verifying => match event {
            DeleteEvent::Failed(e) => (DeleteStage::Finished, report(false, Some(e), true)),
            _ => after_check(action, true),
        },
        DeleteStage::ConfirmingRemote { exists } => match event {
            DeleteEvent::RemoteDeleted(gone) => if !gone {
                (DeleteStage::Finished, report(false, Some("云端文件仍存在，取消本地删除并等待重新规划".to_owned()), true))
            } else if exists {
                (DeleteStage::Reprobing, DeleteCommand::ProbePath)
            } else {
                (DeleteStage::Finished, report(true, None, false))
            },
            DeleteEvent::Failed(e) => (DeleteStage::Finished, refusal("无法确认云端已删除，保留本地内容：", e.as_str())),
            _ => (DeleteStage::Finished, DeleteCommand::LoadBaselines),
        },
        DeleteStage::Reprobing => match event {
            DeleteEvent::Absent => (DeleteStage::Finished, report(true, None, false)),
            DeleteEvent::Failed(e) => (
                DeleteStage::Finished,
                refusal("远端核验后无法读取待删除路径，保留本地内容：", e.as_str()),
            ),
            _ => (DeleteStage::Reverifying, DeleteCommand::VerifySnapshot { allow_orphan_placeholder: allow }),
        },
        DeleteStage::Reverifying => match event {
            DeleteEvent::Failed(e) => (
                DeleteStage::Finished,
                refusal("远端核验期间本地内容发生变化，已取消删除：", e.as_str()),
            ),
            _ => (DeleteStage::Deleting, DeleteCommand::DeleteLocal),
        },
        DeleteStage::Deleting => match event {
            DeleteEvent::Failed(e) => (DeleteStage::Finished, report(false, Some(e), true)),
            _ => (DeleteStage::Finished, report(true, None, false)),
        },
        DeleteStage::Finished => (DeleteStage::Finished, DeleteCommand::LoadBaselines),
    }
}

/// Local content is removed only right after it was checked against the
/// baselines a second time, once the drive had answered.
pub proof fn local_content_removed_only_after_recheck(
    action: SyncAction,
    stage: DeleteStage,
    event: DeleteEvent,
    next: DeleteStage,
    cmd: DeleteCommand,
)
    requires
        delete_fits(stage, event),
        delete_steps_to(action, stage, event, next, cmd),
        cmd is DeleteLocal,
    ensures
        stage is Reverifying,
        event is Done,
{
}

/// When the action names a cloud file, the second check starts only after
/// the drive confirmed that file deleted; a record waiting for its first
/// upload never gets that far.
pub proof fn recheck_needs_remote_deletion(
    action: SyncAction,
    stage: DeleteStage,
    event: DeleteEvent,
    next: DeleteStage,
    cmd: DeleteCommand,
)
    requires
        delete_fits(stage, event),
        delete_steps_to(action, stage, event, next, cmd),
        next is Reprobing || next is ConfirmingRemote,
        action.file_id is Some,
    ensures
        next is ConfirmingRemote ==> !has_prefix(action.file_id->0@, pending_prefix()),
        next is Reprobing ==> stage is ConfirmingRemote && event == DeleteEvent::RemoteDeleted(true),
{
}

} // verus!
