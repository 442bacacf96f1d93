//! Decisions of the smaller executor actions: moving a file in the cloud,
//! deleting a cloud file, creating folders and placeholders. The executor
//! performs the drive and disk work in between and hands each outcome to the
//! next decision.

use vstd::prelude::*;
use crate::content_checks::LocalEntryKind;
use crate::hydration::{file_name, file_name_of};
use crate::model::{opt_str, DriveFile, DriveFileView, SyncAction, SyncActionType, SyncItem, CLOUD_ONLY};
use crate::settlement::ActionResult;

verus! {

/// The result: success and message, deferral, and the cloud file reported.
pub open spec fn result_is(r: ActionResult, success: bool, message: Option<Seq<char>>, deferred: bool) -> bool {
    r.success == success && r.deferred == deferred && opt_str(r.error_message) == message
}

/// A failure, deferred to a later plan, with this message and no cloud file.
pub open spec fn deferred_with(r: ActionResult, message: Seq<char>) -> bool {
    result_is(r, false, Some(message), true) && r.cloud_file is None
}

/// A result.
fn outcome(success: bool, message: Option<String>, deferred: bool, cloud_file: Option<DriveFile>) -> (r: ActionResult)
    ensures
        result_is(r, success, opt_str(message), deferred),
        r.cloud_file == cloud_file,
{
    ActionResult { success, error_message: message, deferred, cloud_file }
}

/// A deferred failure with this message.
fn defer(message: String) -> (r: ActionResult)
    ensures
        deferred_with(r, message@),
{
    outcome(false, Some(message), true, None)
}

// ----- moving a file in the cloud -----

/// What a cloud move needs, taken from the planned action.
#[derive(Debug)]
pub struct MovePlan {
    pub file_id: String,
    pub target_parent: String,
    pub relative_path: String,
    pub local_path: String,
    pub is_folder: bool,
    /// The last segment of the target path (the whole path when that
    /// segment is empty).
    pub target_name: String,
}

/// The name a move gives the file: the last segment of the target path,
/// or the whole path when that segment is empty.
pub open spec fn move_target_name(path: Seq<char>) -> Seq<char> {
    if file_name_of(path).len() > 0 { file_name_of(path) } else { path }
}

/// The reason a planned cloud move cannot start yet, if any.
pub open spec fn move_gap(a: SyncAction) -> Option<Seq<char>> {
    if a.file_id is None {
        Some("云端路径变更缺少 fileId，等待重新规划"@)
    } else if a.parent_file_id is None {
        Some("云端路径变更的目标父目录尚未取得 fileId，等待重新规划"@)
    } else if a.relative_path is None {
        Some("云端路径变更缺少目标相对路径，等待重新规划"@)
    } else if a.local_path is None {
        Some("云端路径变更缺少本地路径，等待重新规划"@)
    } else if a.cloud_file is None {
        Some("云端路径变更缺少规划时的稳定身份与类型，等待重新规划"@)
    } else if a.cloud_file->0@.id != a.file_id->0@ {
        Some("云端路径变更的规划身份与 fileId 不一致，等待重新规划"@)
    } else {
        None
    }
}

/// Gather what a cloud move needs; every missing piece defers the move to
/// a later plan.
pub fn plan_cloud_move(action: &SyncAction) -> (r: Result<MovePlan, ActionResult>)
    ensures
        match move_gap(*action) {
            Some(m) => r matches Err(res) && deferred_with(res, m),
            None => r matches Ok(p) && {
                &&& p.file_id@ == action.file_id->0@
                &&& p.target_parent@ == action.parent_file_id->0@
                &&& p.relative_path@ == action.relative_path->0@
                &&& p.local_path@ == action.local_path->0@
                &&& p.is_folder == action.cloud_file->0@.is_folder()
                &&& p.target_name@ == move_target_name(action.relative_path->0@)
            },
        },
{
    let file_id = match &action.file_id {
        Some(f) => f,
        None => return Err(defer("云端路径变更缺少 fileId，等待重新规划".to_owned())),
    };
    let target_parent = match &action.parent_file_id {
        Some(p) => p,
        None => return Err(defer("云端路径变更的目标父目录尚未取得 fileId，等待重新规划".to_owned())),
    };
    let relative_path = match &action.relative_path {
        Some(p) => p,
        None => return Err(defer("云端路径变更缺少目标相对路径，等待重新规划".to_owned())),
    };
    let local_path = match &action.local_path {
        Some(p) => p,
        None => return Err(defer("云端路径变更缺少本地路径，等待重新规划".to_owned())),
    };
    let planned = match &action.cloud_file {
        Some(c) => c,
        None => return Err(defer("云端路径变更缺少规划时的稳定身份与类型，等待重新规划".to_owned())),
    };
    if !crate::paths::str_equal(planned.id.as_str(), file_id.as_str()) {
        return Err(defer("云端路径变更的规划身份与 fileId 不一致，等待重新规划".to_owned()));
    }
    let last = file_name(relative_path.as_str());
    let target_name = if last.unicode_len() > 0 { last } else { relative_path.clone() };
    Ok(MovePlan {
        file_id: file_id.clone(),
        target_parent: target_parent.clone(),
        relative_path: relative_path.clone(),
        local_path: local_path.clone(),
        is_folder: planned.is_folder(),
        target_name,
    })
}

/// The local path still holds the planned file: an entry of the planned
/// kind (not a link) whose identity attribute is the file id.
pub open spec fn move_source_intact(p: MovePlan, kind: Option<LocalEntryKind>, identity: Option<Seq<char>>) -> bool {
    &&& kind matches Some(k)
    &&& if p.is_folder { k == LocalEntryKind::Directory } else { k is File }
    &&& identity == Some(p.file_id@)
}

/// Check the local path before the cloud is written: `kind` is what is on
/// disk (none when it cannot be read), `identity` its file id attribute.
pub fn check_move_source(plan: &MovePlan, kind: Option<LocalEntryKind>, identity: Option<&str>) -> (r: Result<(), ActionResult>)
    ensures
        r is Ok <==> move_source_intact(*plan, kind, match identity { Some(s) => Some(s@), None => None }),
        r matches Err(res) ==> deferred_with(res, "云端路径变更执行前本地路径或 fileId 已变化，等待重新规划"@),
{
    let kind_ok = match kind {
        Some(LocalEntryKind::Directory) => plan.is_folder,
        Some(LocalEntryKind::File { .. }) => !plan.is_folder,
        _ => false,
    };
    let same = match identity {
        Some(s) => crate::paths::str_equal(s, plan.file_id.as_str()),
        None => false,
    };
    if kind_ok && same {
        Ok(())
    } else {
        Err(defer("云端路径变更执行前本地路径或 fileId 已变化，等待重新规划".to_owned()))
    }
}

/// Another cloud file of the target folder already has the target name.
pub open spec fn name_taken(p: MovePlan, listing: Seq<DriveFile>) -> bool {
    exists|i: int| 0 <= i < listing.len() && listing[i]@.id != p.file_id@ && listing[i]@.name == p.target_name@
}

/// Check the target folder's listing before the move is sent: a failed
/// listing or another file with the target name defers the move.
pub fn check_move_target(plan: &MovePlan, listing: Result<Vec<DriveFile>, String>) -> (r: Result<(), ActionResult>)
    ensures
        match listing {
            Err(e) => r matches Err(res) && deferred_with(res, "核验移动目标目录失败，未发送远端写入："@ + e@),
            Ok(files) => if name_taken(*plan, files@) {
                r matches Err(res) && deferred_with(res,
                    "目标目录已存在同名云端文件 "@ + plan.target_name@ + "，拒绝覆盖并等待重新规划"@)
            } else {
                r is Ok
            },
        },
{
    let files = match listing {
        Err(e) => return Err(defer("核验移动目标目录失败，未发送远端写入：".to_owned().concat(e.as_str()))),
        Ok(files) => files,
    };
    let mut i: usize = 0;
    while i < files.len()
        invariant
            i <= files@.len(),
            listing == Ok::<Vec<DriveFile>, String>(files),
            forall|j: int| 0 <= j < i ==> !(files@[j]@.id != plan.file_id@ && files@[j]@.name == plan.target_name@),
        decreases files@.len() - i,
    {
        let f = &files[i];
        if !crate::paths::str_equal(f.id.as_str(), plan.file_id.as_str())
            && crate::paths::str_equal(f.name.as_str(), plan.target_name.as_str()) {
            let m = "目标目录已存在同名云端文件 ".to_owned().concat(plan.target_name.as_str())
                .concat("，拒绝覆盖并等待重新规划");
            return Err(defer(m));
        }
        i = i + 1;
    }
    Ok(())
}

/// What follows the move request.
#[derive(Debug)]
pub enum MoveOutcome {
    /// The action is settled with this result.
    Settled(ActionResult),
    /// The request failed with this message; the file is fetched by id to
    /// learn whether the move took effect.
    CheckById(String),
}

/// A cloud file that is the planned one: same id and kind.
pub open spec fn same_file(p: MovePlan, f: DriveFileView) -> bool {
    f.id == p.file_id@ && f.is_folder() == p.is_folder
}

/// After the move request: a response for the planned file settles the
/// move; another file defers it; a failure asks for a check by id.
pub fn after_move_request(plan: &MovePlan, response: Result<DriveFile, String>) -> (r: MoveOutcome)
    ensures
        match response {
            Ok(f) => if same_file(*plan, f@) {
                r matches MoveOutcome::Settled(res) && result_is(res, true, None, false) && res.cloud_file == Some(f)
            } else {
                r matches MoveOutcome::Settled(res)
                    && deferred_with(res, "云端路径变更响应的稳定身份或文件类型不一致，等待重新核验"@)
            },
            Err(e) => r matches MoveOutcome::CheckById(m) && m@ == e@,
        },
{
    match response {
        Ok(f) => {
            if crate::paths::str_equal(f.id.as_str(), plan.file_id.as_str()) && f.is_folder() == plan.is_folder {
                MoveOutcome::Settled(outcome(true, None, false, Some(f)))
            } else {
                MoveOutcome::Settled(defer("云端路径变更响应的稳定身份或文件类型不一致，等待重新核验".to_owned()))
            }
        },
        Err(e) => MoveOutcome::CheckById(e),
    }
}

/// The fetched file shows the move done: the planned file, with the target
/// name, in the target folder alone.
pub open spec fn move_visible(p: MovePlan, f: DriveFileView) -> bool {
    &&& same_file(p, f)
    &&& f.name == p.target_name@
    &&& f.parent_folder matches Some(ps) && ps.len() == 1 && ps[0] == p.target_parent@
}

/// After a failed move request, the file fetched by id settles the move:
/// done when it shows the move, deferred otherwise.
pub fn after_move_check(plan: &MovePlan, error: &str, fetched: Result<DriveFile, String>) -> (r: ActionResult)
    ensures
        match fetched {
            Ok(f) => if move_visible(*plan, f@) {
                result_is(r, true, None, false) && r.cloud_file == Some(f)
            } else {
                deferred_with(r, "远端路径变更尚未生效，保留原基线等待重新规划："@ + error@)
            },
            Err(v) => deferred_with(r, "远端路径变更结果不确定，保留原基线等待重新规划："@ + error@ + "；核验失败："@ + v@),
        },
{
    match fetched {
        Ok(f) => {
            let parent_ok = match &f.parent_folder {
                Some(ps) => ps.len() == 1 && crate::paths::str_equal(ps[0].as_str(), plan.target_parent.as_str()),
                None => false,
            };
            if crate::paths::str_equal(f.id.as_str(), plan.file_id.as_str()) && f.is_folder() == plan.is_folder
                && crate::paths::str_equal(f.name.as_str(), plan.target_name.as_str()) && parent_ok {
                outcome(true, None, false, Some(f))
            } else {
                defer("远端路径变更尚未生效，保留原基线等待重新规划：".to_owned().concat(error))
            }
        },
        Err(v) => defer(
            "远端路径变更结果不确定，保留原基线等待重新规划：".to_owned().concat(error).concat("；核验失败：").concat(v.as_str()),
        ),
    }
}

// ----- deleting a cloud file -----

/// The file a cloud deletion removes; an action without one fails.
pub fn begin_cloud_delete(action: &SyncAction) -> (r: Result<String, ActionResult>)
    ensures
        match action.file_id {
            Some(f) => r matches Ok(id) && id@ == f@,
            None => r matches Err(res) && result_is(res, false, Some("缺少 fileId"@), false) && res.cloud_file is None,
        },
{
    match &action.file_id {
        Some(f) => Ok(f.clone()),
        None => Err(outcome(false, Some("缺少 fileId".to_owned()), false, None)),
    }
}

/// After the deletion request: success settles it; a failure (`None`)
/// asks whether the file is gone anyway.
pub fn after_cloud_delete(response: Result<(), String>) -> (r: Option<ActionResult>)
    ensures
        response is Ok ==> (r matches Some(res) && result_is(res, true, None, false) && res.cloud_file is None),
        response is Err ==> r is None,
{
    match response {
        Ok(()) => Some(outcome(true, None, false, None)),
        Err(_) => None,
    }
}

/// After a failed deletion request with message `error`, the drive's
/// answer whether the file is gone settles the deletion.
pub fn after_cloud_delete_check(error: &str, gone: Result<bool, String>) -> (r: ActionResult)
    ensures
        r.cloud_file is None,
        match gone {
            Ok(true) => result_is(r, true, None, false),
            Ok(false) => result_is(r, false, Some(error@ + "；远端核验显示文件仍未回收"@), false),
            Err(v) => result_is(r, false, Some(error@ + "；删除结果核验失败："@ + v@), true),
        },
{
    match gone {
        Ok(true) => outcome(true, None, false, None),
        Ok(false) => outcome(false, Some(error.to_owned().concat("；远端核验显示文件仍未回收")), false, None),
        Err(v) => outcome(false, Some(error.to_owned().concat("；删除结果核验失败：").concat(v.as_str())), true, None),
    }
}

// ----- creating folders -----

/// What creating a folder does.
#[derive(Debug)]
pub enum FolderPlan {
    /// Make sure the local folder exists and carries this file id.
    EnsureLocal { file_id: String },
    /// Create the folder in the cloud under this name and parent.
    CreateInCloud { name: String, parent_id: Option<String> },
    /// Nothing to do: the action is settled with this result.
    Settled(ActionResult),
}

/// Plan a folder creation: a cloud folder is made to exist locally (when a
/// mount is there); a local folder is created in the cloud under the last
/// segment of its path.
pub fn plan_create_folder(action: &SyncAction, has_mount: bool) -> (r: FolderPlan)
    ensures
        match action.cloud_file {
            Some(c) => if !c@.is_folder() {
                r matches FolderPlan::Settled(res) && res.cloud_file is None
                    && result_is(res, false, Some("创建本地目录动作携带的云端资源不是文件夹"@), false)
            } else if has_mount {
                r matches FolderPlan::EnsureLocal { file_id } && file_id@ == c@.id
            } else {
                r matches FolderPlan::Settled(res) && res.cloud_file is None && result_is(res, true, None, false)
            },
            None => r matches FolderPlan::CreateInCloud { name, parent_id }
                && name@ == file_name_of(match action.relative_path { Some(p) => p@, None => "新建文件夹"@ })
                && opt_str(parent_id) == opt_str(action.parent_file_id),
        },
{
    match &action.cloud_file {
        Some(c) => if !c.is_folder() {
            FolderPlan::Settled(outcome(false, Some("创建本地目录动作携带的云端资源不是文件夹".to_owned()), false, None))
        } else if has_mount {
            FolderPlan::EnsureLocal { file_id: c.id.clone() }
        } else {
            FolderPlan::Settled(outcome(true, None, false, None))
        },
        None => {
            let name = match &action.relative_path {
                Some(p) => file_name(p.as_str()),
                None => file_name("新建文件夹"),
            };
            FolderPlan::CreateInCloud { name, parent_id: crate::model::clone_opt_string(&action.parent_file_id) }
        },
    }
}

/// After making sure of the local folder of a cloud folder.
pub fn after_local_folder(result: Result<(), String>) -> (r: ActionResult)
    ensures
        r.cloud_file is None,
        match result {
            Ok(()) => result_is(r, true, None, false),
            Err(e) => result_is(r, false, Some(e@), false),
        },
{
    match result {
        Ok(()) => outcome(true, None, false, None),
        Err(e) => outcome(false, Some(e), false, None),
    }
}

/// What follows the cloud folder creation.
#[derive(Debug)]
pub enum CreatedFolder {
    /// The action is settled with this result.
    Settled(ActionResult),
    /// Give the local folder the new file id, then settle with
    /// [`after_created_folder_identity`].
    MarkLocal(DriveFile),
}

/// After the cloud folder creation: a failure settles the action; a new
/// folder is marked locally when a mount is there.
pub fn after_cloud_folder(created: Result<DriveFile, String>, has_mount: bool) -> (r: CreatedFolder)
    ensures
        match created {
            Err(e) => r matches CreatedFolder::Settled(res) && res.cloud_file is None && result_is(res, false, Some(e@), false),
            Ok(f) => if has_mount {
                r == CreatedFolder::MarkLocal(f)
            } else {
                r matches CreatedFolder::Settled(res) && result_is(res, true, None, false) && res.cloud_file == Some(f)
            },
        },
{
    match created {
        Err(e) => CreatedFolder::Settled(outcome(false, Some(e), false, None)),
        Ok(f) => if has_mount {
            CreatedFolder::MarkLocal(f)
        } else {
            CreatedFolder::Settled(outcome(true, None, false, Some(f)))
        },
    }
}

/// After marking the local folder of a new cloud folder: the cloud folder
/// is reported either way; a failed mark defers the baseline.
pub fn after_created_folder_identity(folder: DriveFile, marked: Result<(), String>) -> (r: ActionResult)
    ensures
        r.cloud_file == Some(folder),
        match marked {
            Ok(()) => result_is(r, true, None, false),
            Err(e) => result_is(r, false, Some(e@), true),
        },
{
    match marked {
        Ok(()) => outcome(true, None, false, Some(folder)),
        Err(e) => outcome(false, Some(e), true, Some(folder)),
    }
}

// ----- creating placeholders -----

/// What a placeholder needs: its path, file id and size.
#[derive(Debug)]
pub struct PlaceholderPlan {
    pub relative_path: String,
    pub file_id: String,
    pub size: i64,
}

/// Plan a placeholder: the action must carry the cloud file and the path,
/// and a mount must be there.
pub fn plan_placeholder(action: &SyncAction, has_mount: bool) -> (r: Result<PlaceholderPlan, ActionResult>)
    ensures
        action.cloud_file is None ==> (r matches Err(res) && res.cloud_file is None
            && result_is(res, false, Some("缺少云端文件元数据"@), false)),
        action.cloud_file is Some && action.relative_path is None ==> (r matches Err(res) && res.cloud_file is None
            && result_is(res, false, Some("缺少相对路径"@), false)),
        action.cloud_file is Some && action.relative_path is Some && !has_mount ==> (r matches Err(res)
            && res.cloud_file is None && result_is(res, false, Some("mount manager 未初始化"@), false)),
        action.cloud_file is Some && action.relative_path is Some && has_mount ==> (r matches Ok(p)
            && p.relative_path@ == action.relative_path->0@
            && p.file_id@ == action.cloud_file->0@.id
            && p.size == action.cloud_file->0.size),
{
    let cloud = match &action.cloud_file {
        Some(c) => c,
        None => return Err(outcome(false, Some("缺少云端文件元数据".to_owned()), false, None)),
    };
    let rel = match &action.relative_path {
        Some(p) => p,
        None => return Err(outcome(false, Some("缺少相对路径".to_owned()), false, None)),
    };
    if !has_mount {
        return Err(outcome(false, Some("mount manager 未初始化".to_owned()), false, None));
    }
    Ok(PlaceholderPlan { relative_path: rel.clone(), file_id: cloud.id.clone(), size: cloud.size })
}

/// The cloud-only baseline written for a new placeholder.
pub open spec fn cloud_only_baseline(r: SyncItem, f: DriveFileView, local_path: Seq<char>) -> bool {
    &&& r.file_id@ == f.id
    &&& r.local_path@ == local_path
    &&& opt_str(r.parent_folder_id) == f.first_parent()
    &&& r.name@ == f.name
    &&& !r.is_folder
    &&& r.size == f.size
    &&& r.local_size is None && r.sha256 is None && r.local_mtime is None
    &&& r.cloud_edited_time == f.edited_time
    &&& r.last_sync_time is None
    &&& r.status == CLOUD_ONLY
    &&& r.error_message is None
}

/// The cloud-only baseline of a placeholder for `cloud` at `local_path`.
pub fn cloud_only_record(cloud: &DriveFile, local_path: &str) -> (r: SyncItem)
    ensures
        cloud_only_baseline(r, cloud@, local_path@),
{
    SyncItem {
        file_id: cloud.id.clone(),
        local_path: local_path.to_owned(),
        parent_folder_id: cloud.first_parent(),
        name: cloud.name.clone(),
        is_folder: false,
        size: cloud.size,
        local_size: None,
        sha256: None,
        local_mtime: None,
        cloud_edited_time: cloud.edited_time,
        last_sync_time: None,
        status: CLOUD_ONLY,
        error_message: None,
    }
}

/// After creating the placeholder on disk.
pub fn after_placeholder(result: Result<(), String>) -> (r: ActionResult)
    ensures
        r.cloud_file is None,
        match result {
            Ok(()) => result_is(r, true, None, false),
            Err(e) => result_is(r, false, Some(e@), false),
        },
{
    after_local_folder(result)
}

// ----- dispatch -----

/// Which flow runs an action.
#[derive(Debug)]
pub enum ActionRoute {
    /// A durable upload or download task.
    Transfer,
    Placeholder,
    Folder,
    MoveInCloud,
    DeleteFromCloud,
    DeleteFromLocal,
    Conflict,
    BackupBeforeCloudDelete,
    /// Nothing to run: the action is settled with this result.
    Settled(ActionResult),
}

/// The flow that runs an action; a skip succeeds at once, reporting its
/// reason (empty without one).
pub fn route_action(action: &SyncAction) -> (r: ActionRoute)
    ensures
        match action.action_type {
            SyncActionType::Upload | SyncActionType::Download => r is Transfer,
            SyncActionType::CreatePlaceholder => r is Placeholder,
            SyncActionType::CreateFolder => r is Folder,
            SyncActionType::MoveInCloud => r is MoveInCloud,
            SyncActionType::DeleteFromCloud => r is DeleteFromCloud,
            SyncActionType::DeleteFromLocal => r is DeleteFromLocal,
            SyncActionType::CreateConflictCopy => r is Conflict,
            SyncActionType::BackupBeforeCloudDelete => r is BackupBeforeCloudDelete,
            SyncActionType::Skip => r matches ActionRoute::Settled(res) && result_is(res, true,
                Some(match action.reason { Some(m) => m@, None => Seq::empty() }), false) && res.cloud_file is None,
        },
{
    match action.action_type {
        SyncActionType::Upload | SyncActionType::Download => ActionRoute::Transfer,
        SyncActionType::CreatePlaceholder => ActionRoute::Placeholder,
        SyncActionType::CreateFolder => ActionRoute::Folder,
        SyncActionType::MoveInCloud => ActionRoute::MoveInCloud,
        SyncActionType::DeleteFromCloud => ActionRoute::DeleteFromCloud,
        SyncActionType::DeleteFromLocal => ActionRoute::DeleteFromLocal,
        SyncActionType::CreateConflictCopy => ActionRoute::Conflict,
        SyncActionType::BackupBeforeCloudDelete => ActionRoute::BackupBeforeCloudDelete,
        SyncActionType::Skip => {
            let reason = match &action.reason {
                Some(m) => m.clone(),
                None => String::new(),
            };
            ActionRoute::Settled(outcome(true, Some(reason), false, None))
        },
    }
}

/// The result of an action refused because the engine stopped: deferred,
/// since a cancellation is no sync failure.
pub fn stopped_result(message: String) -> (r: ActionResult)
    ensures
        deferred_with(r, message@),
{
    defer(message)
}

} // verus!
