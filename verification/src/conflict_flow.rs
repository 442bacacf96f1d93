//! The steps of handling one conflict, as a machine that the executor runs.
//!
//! The executor performs each command (file system, drive and resolver
//! work) and hands back what happened; the machine decides the next
//! command. When the cloud wins, the local file is copied to a hidden
//! staging path, loses its drive identity, is published as a visible copy,
//! and only then is the main file replaced by the cloud version. When the
//! local side wins, the cloud version is downloaded to staging, loses its
//! identity, is published as a copy, and only then is the cloud file
//! overwritten. Every failure after the staging exists removes what was
//! left behind before the failure is reported.

use vstd::prelude::*;
use crate::conflict::{now_millis, ConflictSide};
use crate::content_checks::LocalDestinationSnapshot;
use crate::model::{opt_str, DriveFile, SyncAction};
use crate::settlement::ActionResult;

verus! {

/// What a download must find, both of the cloud file and of the file it
/// replaces.
#[derive(Debug)]
pub struct DownloadExpectation {
    pub edited_time_ms: Option<i64>,
    pub size: Option<u64>,
    pub content_hash: Option<String>,
    /// The local file being replaced must still have this size and time.
    pub destination_snapshot: Option<LocalDestinationSnapshot>,
    /// The download target is an empty placeholder carrying this file id.
    pub placeholder_file_id: Option<String>,
}

/// The cloud side of a conflict, taken from the planned action.
#[derive(Debug)]
pub struct ConflictCase {
    pub local_path: String,
    pub file_id: String,
    pub parent_id: Option<String>,
    pub edited_time: Option<i64>,
    pub size: i64,
    pub content_hash: Option<String>,
}

/// Which leftover a cleanup removes.
#[derive(Debug, Clone, Copy, PartialEq, Eq, Structural)]
pub enum Leftover {
    /// The hidden staging file.
    Staging,
    /// The published copy.
    Copy,
}

/// The command in flight.
#[derive(Debug)]
pub enum ConflictStage {
    /// Reading the size and time of the local file.
    Inspecting,
    /// Asking the resolver for the winner.
    Resolving(LocalDestinationSnapshot),
    /// Choosing the hidden staging path.
    Allocating(ConflictSide, LocalDestinationSnapshot),
    /// Filling the staging file: a copy of the local file when the cloud
    /// wins, the cloud version when the local side wins.
    Filling(ConflictSide, LocalDestinationSnapshot),
    /// Clearing the drive identity of the staging file.
    Clearing(ConflictSide, LocalDestinationSnapshot),
    /// Publishing the staging file as a visible copy.
    Publishing(ConflictSide, LocalDestinationSnapshot),
    /// Replacing the losing side: downloading the cloud version over the
    /// main file, or uploading the main file over the cloud version.
    Overwriting(ConflictSide),
    /// Giving the downloaded main file its drive identity back.
    RestoringIdentity,
    /// Removing a leftover after a failure; the failure's message waits
    /// here, and `note` goes before the cleanup's own error, if any.
    CleaningUp { message: String, note: String },
    /// Done.
    Finished,
}

/// What the executor does next.
#[derive(Debug)]
pub enum ConflictCommand {
    /// Read the size and time of the local file.
    InspectSource,
    /// Ask the resolver for the winner, given the local modification time.
    Resolve { local_mtime_ms: i64 },
    /// Choose a free hidden staging path beside the local file.
    AllocateStaging,
    /// Copy the local file to staging; it must still match the snapshot.
    CopyMainToStaging { expected: LocalDestinationSnapshot },
    /// Download the cloud version to staging.
    DownloadCloudToStaging { expectation: DownloadExpectation },
    /// Clear the drive identity of the staging file.
    ClearStagingIdentity,
    /// Rename the staging file, without replacing anything, to a free copy
    /// name built from `label` and the time `stamp_ms`.
    PublishCopy { label: String, stamp_ms: i64 },
    /// Download the cloud version over the main file.
    DownloadCloudToMain { expectation: DownloadExpectation },
    /// Give the main file its drive identity back and mark it downloaded.
    RestoreMainIdentity { file_id: String },
    /// Upload the main file over the cloud version.
    UploadMain { file_id: String, parent_id: Option<String> },
    /// Remove a leftover; a missing file is no failure.
    RemoveLeftover { what: Leftover },
    /// Remove the staging file; with `missing_ok`, a missing file is no
    /// failure.
    RemoveStaging { missing_ok: bool },
    /// Report the result.
    Finish(ActionResult),
}

/// What came of a command.
#[derive(Debug)]
pub enum ConflictEvent {
    /// The command succeeded.
    Done,
    /// The command failed, with this message.
    Failed(String),
    /// The local file's size and time.
    Inspected(LocalDestinationSnapshot),
    /// The resolver's winner.
    Winner(ConflictSide),
    /// The upload succeeded and produced this cloud version.
    Uploaded(DriveFile),
}

/// Whether `event` can come of the command in flight at `stage`.
pub open spec fn fits(stage: ConflictStage, event: ConflictEvent) -> bool {
    match stage {
        ConflictStage::Finished => false,
        ConflictStage::Inspecting => event is Inspected || event is Failed,
        ConflictStage::Resolving(_) => event is Winner || event is Failed,
        ConflictStage::Overwriting(ConflictSide::Local) => event is Uploaded || event is Failed,
        _ => event is Done || event is Failed,
    }
}

/// A failed result with this message.
pub open spec fn failed_with(c: ConflictCommand, message: Seq<char>) -> bool {
    match c {
        ConflictCommand::Finish(r) => !r.success && !r.deferred && r.cloud_file is None
            && opt_str(r.error_message) == Some(message),
        _ => false,
    }
}

/// A failed result with this message.
pub open spec fn refused(r: ActionResult, message: Seq<char>) -> bool {
    !r.success && !r.deferred && r.cloud_file is None && opt_str(r.error_message) == Some(message)
}

/// A successful result carrying `cloud_file`.
pub open spec fn succeeded_with(c: ConflictCommand, cloud_file: Option<DriveFile>) -> bool {
    match c {
        ConflictCommand::Finish(r) => r.success && !r.deferred && r.error_message is None && r.cloud_file == cloud_file,
        _ => false,
    }
}

/// Restoring the identity `file_id` of the main file.
pub open spec fn restores(c: ConflictCommand, file_id: Seq<char>) -> bool {
    match c {
        ConflictCommand::RestoreMainIdentity { file_id: f } => f@ == file_id,
        _ => false,
    }
}

/// The conflict case of the local path `local_path` and the cloud file `f`.
pub open spec fn case_of(case: ConflictCase, local_path: Seq<char>, f: DriveFile) -> bool {
    &&& case.local_path@ == local_path
    &&& case.file_id@ == f@.id
    &&& opt_str(case.parent_id) == f@.first_parent()
    &&& case.edited_time == f.edited_time
    &&& case.size == f.size
    &&& opt_str(case.content_hash) == opt_str(f.content_hash)
}

/// The expectation of a cloud download: the planned version, and either
/// the local snapshot it replaces or the placeholder it fills.
pub open spec fn expects(
    e: DownloadExpectation,
    case: ConflictCase,
    destination: Option<LocalDestinationSnapshot>,
    placeholder: bool,
) -> bool {
    &&& e.edited_time_ms == case.edited_time
    &&& e.size == if case.size >= 0 { Some(case.size as u64) } else { None }
    &&& opt_str(e.content_hash) == opt_str(case.content_hash)
    &&& e.destination_snapshot == destination
    &&& if placeholder { e.placeholder_file_id matches Some(id) && id@ == case.file_id@ } else { e.placeholder_file_id is None }
}

/// The cleanup that waits with `message` and `note`.
pub open spec fn cleaning(s: ConflictStage, message: Seq<char>, note: Seq<char>) -> bool {
    s matches ConflictStage::CleaningUp { message: m, note: n } && m@ == message && n@ == note
}

/// One step of the machine: the next stage and command after `event` at
/// `stage`.
pub open spec fn steps_to(case: ConflictCase, stage: ConflictStage, event: ConflictEvent, next: ConflictStage, cmd: ConflictCommand) -> bool {
    match stage {
        ConflictStage::Inspecting => match event {
            ConflictEvent::Inspected(snap) => next == ConflictStage::Resolving(snap)
                && cmd == (ConflictCommand::Resolve { local_mtime_ms: snap.mtime_ms }),
            ConflictEvent::Failed(e) => next is Finished && failed_with(cmd, e@),
            _ => true,
        },
        ConflictStage::Resolving(snap) => match event {
            ConflictEvent::Winner(side) => next == ConflictStage::Allocating(side, snap) && cmd is AllocateStaging,
            ConflictEvent::Failed(e) => next is Finished && failed_with(cmd, e@),
            _ => true,
        },
        ConflictStage::Allocating(side, snap) => match event {
            ConflictEvent::Done => next == ConflictStage::Filling(side, snap) && if side == ConflictSide::Cloud {
                cmd == (ConflictCommand::CopyMainToStaging { expected: snap })
            } else {
                cmd matches ConflictCommand::DownloadCloudToStaging { expectation } && expects(expectation, case, None, true)
            },
            ConflictEvent::Failed(e) => next is Finished && failed_with(cmd, if side == ConflictSide::Cloud {
                "分配本地冲突副本暂存路径失败："@ + e@ } else { "分配云端冲突副本暂存路径失败："@ + e@ }),
            _ => true,
        },
        ConflictStage::Filling(side, snap) => match event {
            ConflictEvent::Done => next == ConflictStage::Clearing(side, snap) && cmd is ClearStagingIdentity,
            ConflictEvent::Failed(e) => if side == ConflictSide::Cloud {
                next is Finished && failed_with(cmd, "创建隐藏本地冲突副本失败，主文件保持不变："@ + e@)
            } else {
                cleaning(next, "冲突副本（云端旧版）下载失败，跳过覆盖以保云端旧版："@ + e@, "；清理隐藏暂存失败："@)
                    && cmd == (ConflictCommand::RemoveStaging { missing_ok: true })
            },
            _ => true,
        },
        ConflictStage::Clearing(side, snap) => match event {
            ConflictEvent::Done => next == ConflictStage::Publishing(side, snap) && if side == ConflictSide::Cloud {
                cmd matches ConflictCommand::PublishCopy { label, stamp_ms } && label@ == "本地副本"@ && stamp_ms == snap.mtime_ms
            } else {
                cmd matches ConflictCommand::PublishCopy { label, stamp_ms } && label@ == "云端副本"@
                    && (case.edited_time matches Some(t) ==> stamp_ms == t)
            },
            ConflictEvent::Failed(e) => if side == ConflictSide::Cloud {
                cleaning(next, "隐藏冲突副本身份清理失败，主文件保持不变："@ + e@, "；"@)
                    && cmd == (ConflictCommand::RemoveLeftover { what: Leftover::Staging })
            } else {
                cleaning(next, "冲突副本身份清理失败，未覆盖云端："@ + e@, "；清理隐藏暂存失败："@)
                    && cmd == (ConflictCommand::RemoveStaging { missing_ok: false })
            },
            _ => true,
        },
        ConflictStage::Publishing(side, snap) => match event {
            ConflictEvent::Done => next == ConflictStage::Overwriting(side) && if side == ConflictSide::Cloud {
                cmd matches ConflictCommand::DownloadCloudToMain { expectation } && expects(expectation, case, Some(snap), false)
            } else {
                cmd matches ConflictCommand::UploadMain { file_id, parent_id }
                    && file_id@ == case.file_id@ && opt_str(parent_id) == opt_str(case.parent_id)
            },
            ConflictEvent::Failed(e) => if side == ConflictSide::Cloud {
                cleaning(next, "发布本地冲突副本失败，主文件保持不变："@ + e@, "；"@)
                    && cmd == (ConflictCommand::RemoveLeftover { what: Leftover::Staging })
            } else {
                cleaning(next, "发布云端冲突副本失败，未覆盖云端："@ + e@, "；清理隐藏暂存失败："@)
                    && cmd == (ConflictCommand::RemoveStaging { missing_ok: false })
            },
            _ => true,
        },
        ConflictStage::Overwriting(side) => match event {
            ConflictEvent::Done => side == ConflictSide::Cloud ==> (next is RestoringIdentity
                && restores(cmd, case.file_id@)),
            ConflictEvent::Uploaded(f) => next is Finished && succeeded_with(cmd, Some(f)),
            ConflictEvent::Failed(e) => cleaning(next, e@, "；"@)
                && cmd == (ConflictCommand::RemoveLeftover { what: Leftover::Copy }),
            _ => true,
        },
        ConflictStage::RestoringIdentity => match event {
            ConflictEvent::Done => next is Finished && succeeded_with(cmd, None),
            ConflictEvent::Failed(e) => next is Finished && failed_with(cmd, "云端冲突版本已下载，但本地身份结算失败："@ + e@),
            _ => true,
        },
        ConflictStage::CleaningUp { message, note } => match event {
            ConflictEvent::Done => next is Finished && failed_with(cmd, message@),
            ConflictEvent::Failed(e) => next is Finished && failed_with(cmd, message@ + note@ + e@),
            _ => true,
        },
        ConflictStage::Finished => true,
    }
}

/// A failed result.
fn failure(message: String) -> (r: ActionResult)
    ensures
        !r.success && !r.deferred && r.cloud_file is None && r.error_message == Some(message),
{
    ActionResult { success: false, error_message: Some(message), deferred: false, cloud_file: None }
}

/// `prefix` followed by `rest`.
fn joined(prefix: &str, rest: &str) -> (s: String)
    ensures
        s@ == prefix@ + rest@,
{
    prefix.to_owned().concat(rest)
}

/// The expectation of a cloud download for `case`.
fn expectation_for(case: &ConflictCase, destination: Option<LocalDestinationSnapshot>, placeholder: bool) -> (e: DownloadExpectation)
    ensures
        expects(e, *case, destination, placeholder),
{
    DownloadExpectation {
        edited_time_ms: case.edited_time,
        size: if case.size >= 0 { Some(case.size as u64) } else { None },
        content_hash: crate::model::clone_opt_string(&case.content_hash),
        destination_snapshot: destination,
        placeholder_file_id: if placeholder { Some(case.file_id.clone()) } else { None },
    }
}

/// Start handling a planned conflict: the action must name the local path
/// and carry the cloud file; the first command reads the local file.
pub fn begin_conflict(action: &SyncAction) -> (r: Result<ConflictCase, ActionResult>)
    ensures
        action.local_path is None ==> (r matches Err(res) && refused(res, "冲突处理缺少本地路径"@)),
        action.local_path is Some && action.cloud_file is None ==> (r matches Err(res)
            && refused(res, "冲突处理缺少云端文件元数据"@)),
        action.local_path is Some && action.cloud_file is Some ==> (r matches Ok(case)
            && case_of(case, action.local_path->0@, action.cloud_file->0)),
{
    let local_path = match &action.local_path {
        Some(p) => p.clone(),
        None => return Err(failure("冲突处理缺少本地路径".to_owned())),
    };
    let cloud = match &action.cloud_file {
        Some(c) => c,
        None => return Err(failure("冲突处理缺少云端文件元数据".to_owned())),
    };
    Ok(ConflictCase {
        local_path,
        file_id: cloud.id.clone(),
        parent_id: cloud.first_parent(),
        edited_time: cloud.edited_time,
        size: cloud.size,
        content_hash: crate::model::clone_opt_string(&cloud.content_hash),
    })
}

/// The next stage and command after `event` at `stage`.
pub fn conflict_step(case: &ConflictCase, stage: ConflictStage, event: ConflictEvent) -> (r: (ConflictStage, ConflictCommand))
    requires
        fits(stage, event),
    ensures
        steps_to(*case, stage, event, r.0, r.1),
{
    match stage {
        ConflictStage::Inspecting => match event {
            ConflictEvent::Inspected(snap) => (ConflictStage::Resolving(snap), ConflictCommand::Resolve { local_mtime_ms: snap.mtime_ms }),
            ConflictEvent::Failed(e) => (ConflictStage::Finished, ConflictCommand::Finish(failure(e))),
            _ => (ConflictStage::Finished, ConflictCommand::InspectSource),
        },
        ConflictStage::Resolving(snap) => match event {
            ConflictEvent::Winner(side) => (ConflictStage::Allocating(side, snap), ConflictCommand::AllocateStaging),
            ConflictEvent::Failed(e) => (ConflictStage::Finished, ConflictCommand::Finish(failure(e))),
            _ => (ConflictStage::Finished, ConflictCommand::InspectSource),
        },
        ConflictStage::Allocating(side, snap) => match event {
            ConflictEvent::Failed(e) => {
                let m = match side {
                    ConflictSide::Cloud => joined("分配本地冲突副本暂存路径失败：", e.as_str()),
                    ConflictSide::Local => joined("分配云端冲突副本暂存路径失败：", e.as_str()),
                };
                (ConflictStage::Finished, ConflictCommand::Finish(failure(m)))
            },
            _ => match side {
                ConflictSide::Cloud => (ConflictStage::Filling(side, snap), ConflictCommand::CopyMainToStaging { expected: snap }),
                ConflictSide::Local => (
                    ConflictStage::Filling(side, snap),
                    ConflictCommand::DownloadCloudToStaging { expectation: expectation_for(case, None, true) },
                ),
            },
        },
        ConflictStage::Filling(side, snap) => match event {
            ConflictEvent::Failed(e) => match side {
                ConflictSide::Cloud => (
                    ConflictStage::Finished,
                    ConflictCommand::Finish(failure(joined("创建隐藏本地冲突副本失败，主文件保持不变：", e.as_str()))),
                ),
                ConflictSide::Local => (
                    ConflictStage::CleaningUp {
                        message: joined("冲突副本（云端旧版）下载失败，跳过覆盖以保云端旧版：", e.as_str()),
                        note: "；清理隐藏暂存失败：".to_owned(),
                    },
                    ConflictCommand::RemoveStaging { missing_ok: true },
                ),
            },
            _ => (ConflictStage::Clearing(side, snap), ConflictCommand::ClearStagingIdentity),
        },
        ConflictStage::Clearing(side, snap) => match event {
            ConflictEvent::Failed(e) => match side {
                ConflictSide::Cloud => (
                    ConflictStage::CleaningUp {
                        message: joined("隐藏冲突副本身份清理失败，主文件保持不变：", e.as_str()),
                        note: "；".to_owned(),
                    },
                    ConflictCommand::RemoveLeftover { what: Leftover::Staging },
                ),
                ConflictSide::Local => (
                    ConflictStage::CleaningUp {
                        message: joined("冲突副本身份清理失败，未覆盖云端：", e.as_str()),
                        note: "；清理隐藏暂存失败：".to_owned(),
                    },
                    ConflictCommand::RemoveStaging { missing_ok: false },
                ),
            },
            _ => match side {
                ConflictSide::Cloud => (
                    ConflictStage::Publishing(side, snap),
                    ConflictCommand::PublishCopy { label: "本地副本".to_owned(), stamp_ms: snap.mtime_ms },
                ),
                ConflictSide::Local => {
                    let stamp_ms = match case.edited_time {
                        Some(t) => t,
                        None => now_millis(),
                    };
                    (ConflictStage::Publishing(side, snap), ConflictCommand::PublishCopy { label: "云端副本".to_owned(), stamp_ms })
                },
            },
        },
        ConflictStage::Publishing(side, snap) => match event {
            ConflictEvent::Failed(e) => match side {
                ConflictSide::Cloud => (
                    ConflictStage::CleaningUp {
                        message: joined("发布本地冲突副本失败，主文件保持不变：", e.as_str()),
                        note: "；".to_owned(),
                    },
                    ConflictCommand::RemoveLeftover { what: Leftover::Staging },
                ),
                ConflictSide::Local => (
                    ConflictStage::CleaningUp {
                        message: joined("发布云端冲突副本失败，未覆盖云端：", e.as_str()),
                        note: "；清理隐藏暂存失败：".to_owned(),
                    },
                    ConflictCommand::RemoveStaging { missing_ok: false },
                ),
            },
            _ => match side {
                ConflictSide::Cloud => (
                    ConflictStage::Overwriting(side),
                    ConflictCommand::DownloadCloudToMain { expectation: expectation_for(case, Some(snap), false) },
                ),
                ConflictSide::Local => (
                    ConflictStage::Overwriting(side),
                    ConflictCommand::UploadMain {
                        file_id: case.file_id.clone(),
                        parent_id: crate::model::clone_opt_string(&case.parent_id),
                    },
                ),
            },
        },
        ConflictStage::Overwriting(side) => match event {
            ConflictEvent::Failed(e) => (
                ConflictStage::CleaningUp { message: e, note: "；".to_owned() },
                ConflictCommand::RemoveLeftover { what: Leftover::Copy },
            ),
            ConflictEvent::Uploaded(f) => (
                ConflictStage::Finished,
                ConflictCommand::Finish(ActionResult { success: true, error_message: None, deferred: false, cloud_file: Some(f) }),
            ),
            _ => (ConflictStage::RestoringIdentity, ConflictCommand::RestoreMainIdentity { file_id: case.file_id.clone() }),
        },
        ConflictStage::RestoringIdentity => match event {
            ConflictEvent::Failed(e) => (
                ConflictStage::Finished,
                ConflictCommand::Finish(failure(joined("云端冲突版本已下载，但本地身份结算失败：", e.as_str()))),
            ),
            _ => (
                ConflictStage::Finished,
                ConflictCommand::Finish(ActionResult { success: true, error_message: None, deferred: false, cloud_file: None }),
            ),
        },
        ConflictStage::CleaningUp { message, note } => match event {
            ConflictEvent::Failed(e) => {
                let m = message.concat(note.as_str()).concat(e.as_str());
                (ConflictStage::Finished, ConflictCommand::Finish(failure(m)))
            },
            _ => (ConflictStage::Finished, ConflictCommand::Finish(failure(message))),
        },
        ConflictStage::Finished => (ConflictStage::Finished, ConflictCommand::InspectSource),
    }
}

/// The cloud version is overwritten only right after the copy of it was
/// published: the upload follows a successful publication when the local
/// side won.
pub proof fn cloud_overwritten_only_after_copy(
    case: ConflictCase,
    stage: ConflictStage,
    event: ConflictEvent,
    next: ConflictStage,
    cmd: ConflictCommand,
)
    requires
        fits(stage, event),
        steps_to(case, stage, event, next, cmd),
        cmd is UploadMain,
    ensures
        stage matches ConflictStage::Publishing(side, _) && side == ConflictSide::Local,
        event is Done,
{
}

/// The main file is replaced by the cloud version only right after its
/// own copy was published, and only while it still has the size and time
/// read when the conflict was decided.
pub proof fn main_replaced_only_after_copy(
    case: ConflictCase,
    stage: ConflictStage,
    event: ConflictEvent,
    next: ConflictStage,
    cmd: ConflictCommand,
)
    requires
        fits(stage, event),
        steps_to(case, stage, event, next, cmd),
        cmd is DownloadCloudToMain,
    ensures
        stage matches ConflictStage::Publishing(side, _) && side == ConflictSide::Cloud,
        event is Done,
        stage matches ConflictStage::Publishing(_, snap)
            && cmd matches ConflictCommand::DownloadCloudToMain { expectation }
            && expectation.destination_snapshot == Some(snap),
{
}

/// A copy is published only once the staging file lost its drive identity,
/// so no visible copy carries the original file id.
pub proof fn copies_published_without_identity(
    case: ConflictCase,
    stage: ConflictStage,
    event: ConflictEvent,
    next: ConflictStage,
    cmd: ConflictCommand,
)
    requires
        fits(stage, event),
        steps_to(case, stage, event, next, cmd),
        cmd is PublishCopy,
    ensures
        stage is Clearing,
        event is Done,
{
}

/// A conflict succeeds only when the losing side was replaced: after the
/// downloaded main file got its identity back, or with the cloud version
/// the upload produced.
pub proof fn success_only_after_replacement(
    case: ConflictCase,
    stage: ConflictStage,
    event: ConflictEvent,
    next: ConflictStage,
    cmd: ConflictCommand,
)
    requires
        fits(stage, event),
        steps_to(case, stage, event, next, cmd),
        cmd matches ConflictCommand::Finish(r) && r.success,
    ensures
        (stage is RestoringIdentity && event is Done)
        || (stage matches ConflictStage::Overwriting(side) && side == ConflictSide::Local && event is Uploaded),
{
}

/// A failure once the staging file may hold content removes the leftover
/// before anything is reported.
pub proof fn failures_clean_up_leftovers(
    case: ConflictCase,
    stage: ConflictStage,
    event: ConflictEvent,
    next: ConflictStage,
    cmd: ConflictCommand,
)
    requires
        fits(stage, event),
        steps_to(case, stage, event, next, cmd),
        event is Failed,
        stage is Clearing || stage is Publishing || stage is Overwriting
            || (stage matches ConflictStage::Filling(side, _) && side == ConflictSide::Local),
    ensures
        next is CleaningUp,
        cmd is RemoveLeftover || cmd is RemoveStaging,
{
}

// ----- choosing free names -----

/// How many names are tried for a staging file or a published copy.
pub const NAME_ATTEMPTS: usize = 32;

/// What trying one name showed.
#[derive(Debug)]
pub enum NameProbe {
    /// The name is free (or the rename to it succeeded).
    Free,
    /// Something already has the name.
    Taken,
    /// The check or the rename failed, with this message.
    Failed(String),
}

/// What to do after trying a name.
#[derive(Debug, PartialEq, Eq)]
pub enum ProbeNext {
    Use,
    TryAnother,
    GiveUp(String),
}

/// The step after trying name number `attempt` (from zero): a free name is
/// used, a taken one leads to another until the attempts run out, and a
/// failure gives up with `failed_prefix` and its message.
pub open spec fn probe_next(attempt: usize, probe: NameProbe, failed_prefix: Seq<char>, exhausted: Seq<char>, r: ProbeNext) -> bool {
    match probe {
        NameProbe::Free => r is Use,
        NameProbe::Taken => if attempt + 1 < NAME_ATTEMPTS {
            r is TryAnother
        } else {
            r matches ProbeNext::GiveUp(m) && m@ == exhausted
        },
        NameProbe::Failed(e) => r matches ProbeNext::GiveUp(m) && m@ == failed_prefix + e@,
    }
}

fn probe_step(attempt: usize, probe: NameProbe, failed_prefix: &str, exhausted: &str) -> (r: ProbeNext)
    requires
        attempt < NAME_ATTEMPTS,
    ensures
        probe_next(attempt, probe, failed_prefix@, exhausted@, r),
{
    match probe {
        NameProbe::Free => ProbeNext::Use,
        NameProbe::Taken => if attempt + 1 < NAME_ATTEMPTS {
            ProbeNext::TryAnother
        } else {
            ProbeNext::GiveUp(exhausted.to_owned())
        },
        NameProbe::Failed(e) => ProbeNext::GiveUp(failed_prefix.to_owned().concat(e.as_str())),
    }
}

/// After checking a candidate hidden staging path beside the local file.
pub fn staging_probe_step(attempt: usize, probe: NameProbe) -> (r: ProbeNext)
    requires
        attempt < NAME_ATTEMPTS,
    ensures
        probe_next(attempt, probe, "检查冲突下载暂存路径失败："@, "无法分配冲突下载暂存路径"@, r),
{
    probe_step(attempt, probe, "检查冲突下载暂存路径失败：", "无法分配冲突下载暂存路径")
}

/// After renaming the staging file, without replacing anything, to a
/// candidate copy name.
pub fn publish_probe_step(attempt: usize, probe: NameProbe) -> (r: ProbeNext)
    requires
        attempt < NAME_ATTEMPTS,
    ensures
        probe_next(attempt, probe, "原子创建冲突副本失败："@, "冲突副本路径持续被占用，请稍后重试"@, r),
{
    probe_step(attempt, probe, "原子创建冲突副本失败：", "冲突副本路径持续被占用，请稍后重试")
}

} // verus!
