//! The steps of keeping a local edit whose cloud file was deleted, as a
//! machine that the executor runs.
//!
//! The local file is copied to a hidden staging path, loses its drive
//! identity, and is published as an ordinary copy (uploaded later as a new
//! file). Only when the main file still has the size and time that were
//! copied is it removed, which completes the cloud deletion locally. Every
//! failure after the staging exists removes the leftover before the failure
//! is reported.

use vstd::prelude::*;
use crate::content_checks::LocalDestinationSnapshot;
use crate::model::{opt_str, SyncAction};
use crate::settlement::ActionResult;

verus! {

/// The command in flight.
#[derive(Debug)]
pub enum BackupStage {
    /// Checking whether the local file exists.
    Probing,
    /// Reading the size and time of the local file.
    Inspecting,
    /// Choosing the hidden staging path.
    Allocating(LocalDestinationSnapshot),
    /// Copying the local file to staging.
    Copying(LocalDestinationSnapshot),
    /// Clearing the drive identity of the staging file.
    Clearing(LocalDestinationSnapshot),
    /// Publishing the staging file as a visible copy.
    Publishing(LocalDestinationSnapshot),
    /// Reading the local file again, once the copy is published.
    Verifying(LocalDestinationSnapshot),
    /// Removing the local file.
    RemovingMain,
    /// Removing a leftover after a failure; the result is `if_removed` when
    /// it went, else `if_not` followed by the cleanup's own error.
    CleaningUp { if_removed: String, if_not: String },
    /// Done.
    Finished,
}

/// Which leftover a cleanup removes.
#[derive(Debug, Clone, Copy, PartialEq, Eq, Structural)]
pub enum BackupLeftover {
    /// The hidden staging file.
    Staging,
    /// The published copy.
    Copy,
}

/// What the executor does next.
#[derive(Debug)]
pub enum BackupCommand {
    /// Check whether the local file exists.
    ProbeSource,
    /// Read the size and time of the local file.
    InspectSource,
    /// Choose a free hidden staging path beside the local file.
    AllocateStaging,
    /// Copy the local file to staging; it must still match the snapshot.
    CopyToStaging { expected: LocalDestinationSnapshot },
    /// Clear the drive identity of the staging file.
    ClearStagingIdentity,
    /// Rename the staging file, without replacing anything, to a free
    /// "本地副本" copy name stamped with the local modification time.
    PublishCopy { stamp_ms: i64 },
    /// Read the size and time of the local file again.
    VerifySource,
    /// Remove the local file.
    RemoveMain,
    /// Remove a leftover; a missing file is no failure.
    RemoveLeftover { what: BackupLeftover },
    /// Report the result.
    Finish(ActionResult),
}

/// What came of a command.
#[derive(Debug)]
pub enum BackupEvent {
    /// The command succeeded.
    Done,
    /// The local file does not exist.
    Absent,
    /// The command failed, with this message.
    Failed(String),
    /// The local file's size and time.
    Inspected(LocalDestinationSnapshot),
}

/// Whether `event` can come of the command in flight at `stage`.
pub open spec fn backup_fits(stage: BackupStage, event: BackupEvent) -> bool {
    match stage {
        BackupStage::Finished => false,
        BackupStage::Probing => event is Done || event is Absent || event is Failed,
        BackupStage::Inspecting | BackupStage::Verifying(_) => event is Inspected || event is Failed,
        _ => event is Done || event is Failed,
    }
}

/// A result with this success and message.
pub open spec fn finishes(c: BackupCommand, success: bool, message: Option<Seq<char>>) -> bool {
    match c {
        BackupCommand::Finish(r) => r.success == success && !r.deferred && r.cloud_file is None
            && opt_str(r.error_message) == message,
        _ => false,
    }
}

/// The cleanup that waits with these two outcomes, removing `what`.
pub open spec fn cleans(next: BackupStage, cmd: BackupCommand, what: BackupLeftover, if_removed: Seq<char>, if_not: Seq<char>) -> bool {
    &&& next matches BackupStage::CleaningUp { if_removed: a, if_not: b } && a@ == if_removed && b@ == if_not
    &&& cmd == (BackupCommand::RemoveLeftover { what })
}

/// One step of the machine: the next stage and command after `event` at
/// `stage`.
pub open spec fn backup_steps_to(stage: BackupStage, event: BackupEvent, next: BackupStage, cmd: BackupCommand) -> bool {
    match stage {
        BackupStage::Probing => match event {
            BackupEvent::Done => next is Inspecting && cmd is InspectSource,
            BackupEvent::Absent => next is Finished && finishes(cmd, true, None),
            BackupEvent::Failed(e) => next is Finished && finishes(cmd, false, Some("检查删除冲突源文件失败："@ + e@)),
            _ => true,
        },
        BackupStage::Inspecting => match event {
            BackupEvent::Inspected(snap) => next == BackupStage::Allocating(snap) && cmd is AllocateStaging,
            BackupEvent::Failed(e) => next is Finished && finishes(cmd, false, Some(e@)),
            _ => true,
        },
        BackupStage::Allocating(snap) => match event {
            BackupEvent::Done => next == BackupStage::Copying(snap) && cmd == (BackupCommand::CopyToStaging { expected: snap }),
            BackupEvent::Failed(e) => next is Finished && finishes(cmd, false, Some("分配删除冲突隐藏暂存失败："@ + e@)),
            _ => true,
        },
        BackupStage::Copying(snap) => match event {
            BackupEvent::Done => next == BackupStage::Clearing(snap) && cmd is ClearStagingIdentity,
            BackupEvent::Failed(e) => next is Finished
                && finishes(cmd, false, Some("创建删除冲突隐藏副本失败，原文件保持不变："@ + e@)),
            _ => true,
        },
        BackupStage::Clearing(snap) => match event {
            BackupEvent::Done => next == BackupStage::Publishing(snap) && cmd == (BackupCommand::PublishCopy { stamp_ms: snap.mtime_ms }),
            BackupEvent::Failed(e) => cleans(next, cmd, BackupLeftover::Staging,
                "删除冲突副本身份清理失败，原文件保持不变："@ + e@, "删除冲突副本身份清理失败："@ + e@ + "；"@),
            _ => true,
        },
        BackupStage::Publishing(snap) => match event {
            BackupEvent::Done => next == BackupStage::Verifying(snap) && cmd is VerifySource,
            BackupEvent::Failed(e) => cleans(next, cmd, BackupLeftover::Staging,
                "发布删除冲突副本失败，原文件保持不变："@ + e@, e@ + "；"@),
            _ => true,
        },
        BackupStage::Verifying(snap) => match event {
            BackupEvent::Inspected(actual) => if actual == snap {
                next is RemovingMain && cmd is RemoveMain
            } else {
                cleans(next, cmd, BackupLeftover::Copy,
                    "生成副本期间本地源文件已变化；已移除冗余副本，原文件保持不变"@, "生成副本期间本地源文件已变化；"@)
            },
            BackupEvent::Failed(e) => cleans(next, cmd, BackupLeftover::Copy,
                e@ + "；已移除冗余副本，原文件保持不变"@, e@ + "；"@),
            _ => true,
        },
        BackupStage::RemovingMain => match event {
            BackupEvent::Done => next is Finished && finishes(cmd, true, None),
            BackupEvent::Failed(e) => cleans(next, cmd, BackupLeftover::Copy,
                "删除原路径失败，已移除冗余副本："@ + e@, "删除原路径失败："@ + e@ + "；"@),
            _ => true,
        },
        BackupStage::CleaningUp { if_removed, if_not } => match event {
            BackupEvent::Done => next is Finished && finishes(cmd, false, Some(if_removed@)),
            BackupEvent::Failed(e) => next is Finished && finishes(cmd, false, Some(if_not@ + e@)),
            _ => true,
        },
        BackupStage::Finished => true,
    }
}

/// A result with this success and message.
fn finish(success: bool, message: Option<String>) -> (c: BackupCommand)
    ensures
        finishes(c, success, opt_str(message)),
{
    BackupCommand::Finish(ActionResult { success, error_message: message, deferred: false, cloud_file: None })
}

/// `a` followed by `b`.
fn cat(a: &str, b: &str) -> (s: String)
    ensures
        s@ == a@ + b@,
{
    a.to_owned().concat(b)
}

/// A cleanup of `what` with its two outcomes.
fn cleanup(what: BackupLeftover, if_removed: String, if_not: String) -> (r: (BackupStage, BackupCommand))
    ensures
        cleans(r.0, r.1, what, if_removed@, if_not@),
{
    (BackupStage::CleaningUp { if_removed, if_not }, BackupCommand::RemoveLeftover { what })
}

/// Start keeping a local edit whose cloud file was deleted: with no local
/// path there is nothing to keep; otherwise the first command checks that
/// the local file exists.
pub fn begin_backup(action: &SyncAction) -> (r: (BackupStage, BackupCommand))
    ensures
        action.local_path is None ==> r.0 is Finished && finishes(r.1, true, None),
        action.local_path is Some ==> r.0 is Probing && r.1 is ProbeSource,
{
    match &action.local_path {
        None => (BackupStage::Finished, finish(true, None)),
        Some(_) => (BackupStage::Probing, BackupCommand::ProbeSource),
    }
}

/// The next stage and command after `event` at `stage`.
pub fn backup_step(stage: BackupStage, event: BackupEvent) -> (r: (BackupStage, BackupCommand))
    requires
        backup_fits(stage, event),
    ensures
        backup_steps_to(stage, event, r.0, r.1),
{
    proof {
        reveal_strlit("生成副本期间本地源文件已变化；已移除冗余副本，原文件保持不变");
        reveal_strlit("生成副本期间本地源文件已变化；");
    }
    match stage {
        BackupStage::Probing => match event {
            BackupEvent::Absent => (BackupStage::Finished, finish(true, None)),
            BackupEvent::Failed(e) => (BackupStage::Finished, finish(false, Some(cat("检查删除冲突源文件失败：", e.as_str())))),
            _ => (BackupStage::Inspecting, BackupCommand::InspectSource),
        },
        BackupStage::Inspecting => match event {
            BackupEvent::Inspected(snap) => (BackupStage::Allocating(snap), BackupCommand::AllocateStaging),
            BackupEvent::Failed(e) => (BackupStage::Finished, finish(false, Some(e))),
            _ => (BackupStage::Finished, BackupCommand::ProbeSource),
        },
        BackupStage::Allocating(snap) => match event {
            BackupEvent::Failed(e) => (BackupStage::Finished, finish(false, Some(cat("分配删除冲突隐藏暂存失败：", e.as_str())))),
            _ => (BackupStage::Copying(snap), BackupCommand::CopyToStaging { expected: snap }),
        },
        BackupStage::Copying(snap) => match event {
            BackupEvent::Failed(e) => (
                BackupStage::Finished,
                finish(false, Some(cat("创建删除冲突隐藏副本失败，原文件保持不变：", e.as_str()))),
            ),
            _ => (BackupStage::Clearing(snap), BackupCommand::ClearStagingIdentity),
        },
        BackupStage::Clearing(snap) => match event {
            BackupEvent::Failed(e) => cleanup(
                BackupLeftover::Staging,
                cat("删除冲突副本身份清理失败，原文件保持不变：", e.as_str()),
                cat("删除冲突副本身份清理失败：", e.as_str()).concat("；"),
            ),
            _ => (BackupStage::Publishing(snap), BackupCommand::PublishCopy { stamp_ms: snap.mtime_ms }),
        },
        BackupStage::Publishing(snap) => match event {
            BackupEvent::Failed(e) => cleanup(
                BackupLeftover::Staging,
                cat("发布删除冲突副本失败，原文件保持不变：", e.as_str()),
                cat(e.as_str(), "；"),
            ),
            _ => (BackupStage::Verifying(snap), BackupCommand::VerifySource),
        },
        BackupStage::Verifying(snap) => match event {
            BackupEvent::Inspected(actual) => if actual.mtime_ms == snap.mtime_ms && actual.size == snap.size {
                (BackupStage::RemovingMain, BackupCommand::RemoveMain)
            } else {
                cleanup(
                    BackupLeftover::Copy,
                    "生成副本期间本地源文件已变化；已移除冗余副本，原文件保持不变".to_owned(),
                    "生成副本期间本地源文件已变化；".to_owned(),
                )
            },
            BackupEvent::Failed(e) => cleanup(
                BackupLeftover::Copy,
                cat(e.as_str(), "；已移除冗余副本，原文件保持不变"),
                cat(e.as_str(), "；"),
            ),
            _ => (BackupStage::Finished, BackupCommand::ProbeSource),
        },
        BackupStage::RemovingMain => match event {
            BackupEvent::Failed(e) => cleanup(
                BackupLeftover::Copy,
                cat("删除原路径失败，已移除冗余副本：", e.as_str()),
                cat("删除原路径失败：", e.as_str()).concat("；"),
            ),
            _ => (BackupStage::Finished, finish(true, None)),
        },
        BackupStage::CleaningUp { if_removed, if_not } => match event {
            BackupEvent::Failed(e) => (BackupStage::Finished, finish(false, Some(if_not.concat(e.as_str())))),
            _ => (BackupStage::Finished, finish(false, Some(if_removed))),
        },
        BackupStage::Finished => (BackupStage::Finished, BackupCommand::ProbeSource),
    }
}

/// The local file is removed only after its copy was published and the
/// file was read again with the size and time that were copied.
pub proof fn main_removed_only_after_verified_copy(stage: BackupStage, event: BackupEvent, next: BackupStage, cmd: BackupCommand)
    requires
        backup_fits(stage, event),
        backup_steps_to(stage, event, next, cmd),
        cmd is RemoveMain,
    ensures
        stage matches BackupStage::Verifying(snap) && event == BackupEvent::Inspected(snap),
{
}

/// A copy is published only once the staging file lost its drive identity.
pub proof fn backup_copy_published_without_identity(stage: BackupStage, event: BackupEvent, next: BackupStage, cmd: BackupCommand)
    requires
        backup_fits(stage, event),
        backup_steps_to(stage, event, next, cmd),
        cmd is PublishCopy,
    ensures
        stage is Clearing,
        event is Done,
{
}

/// The backup succeeds only when there was nothing to keep or the local
/// file was removed after its copy went out.
pub proof fn backup_success_only_when_done(stage: BackupStage, event: BackupEvent, next: BackupStage, cmd: BackupCommand)
    requires
        backup_fits(stage, event),
        backup_steps_to(stage, event, next, cmd),
        cmd matches BackupCommand::Finish(r) && r.success,
    ensures
        (stage is Probing && event is Absent) || (stage is RemovingMain && event is Done),
{
}

} // verus!
