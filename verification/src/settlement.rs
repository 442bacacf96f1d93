//! Settling executed actions: which baseline rows a result writes or removes.
//!
//! Persisted baselines advance only on confirmed success; failures and
//! deferred work never move the last confirmed state forward.

use vstd::prelude::*;
use crate::error::AppError;
use crate::hydration::{file_name, file_name_of};
use crate::model::{
    is_pending_file_id, opt_file, opt_str, pending_prefix, DriveFile, DriveFileView, SyncAction,
    SyncActionType, SyncItem, CLOUD_ONLY, CONFLICT, SYNCED,
};
use crate::path_map::PathMap;
use crate::paths::{has_prefix, in_subtree, is_in_subtree, starts_with};
use crate::model::{clone_opt_string, strs};
use crate::text::concat;

verus! {

/// Outcome of executing one action.
#[derive(Debug)]
pub struct ActionResult {
    pub success: bool,
    pub error_message: Option<String>,
    /// The work was handed to a durable task and is not settled yet.
    pub deferred: bool,
    /// The cloud file the action produced, when it reports one.
    pub cloud_file: Option<DriveFile>,
}

impl ActionResult {
    /// A copy with the same outcome, message and cloud file.
    pub fn duplicate(&self) -> (r: ActionResult)
        ensures
            r.success == self.success,
            r.deferred == self.deferred,
            opt_str(r.error_message) == opt_str(self.error_message),
            opt_file(r.cloud_file) == opt_file(self.cloud_file),
    {
        ActionResult {
            success: self.success,
            error_message: clone_opt_string(&self.error_message),
            deferred: self.deferred,
            cloud_file: match &self.cloud_file {
                Some(f) => Some(f.duplicate()),
                None => None,
            },
        }
    }
}

/// What settling one executed action does to the persisted baselines.
#[allow(inconsistent_fields)]
pub enum SettlementStep {
    /// Nothing.
    Keep,
    /// Remove the baseline at `path`: with `subtree`, also every row below it;
    /// otherwise only the row with `file_id` when one is given.
    DeleteBaseline { path: String, file_id: Option<String>, subtree: bool },
    /// Record the failure on the row (`file_id`, `path`).
    MarkFailed { file_id: String, path: String, message: Option<String> },
    /// A rename detected in one folder finished uploading: remove the rows of
    /// `file_id` at other paths.
    DropOtherPaths { file_id: String, path: String },
    /// Write a success baseline (see [`settle_success`]).
    SettleSuccess,
}

/// Mathematical view of [`SettlementStep`].
#[allow(inconsistent_fields)]
pub enum SettlementStepView {
    Keep,
    DeleteBaseline { path: Seq<char>, file_id: Option<Seq<char>>, subtree: bool },
    MarkFailed { file_id: Seq<char>, path: Seq<char>, message: Option<Seq<char>> },
    DropOtherPaths { file_id: Seq<char>, path: Seq<char> },
    SettleSuccess,
}

impl View for SettlementStep {
    type V = SettlementStepView;

    open spec fn view(&self) -> SettlementStepView {
        match self {
            SettlementStep::Keep => SettlementStepView::Keep,
            SettlementStep::DeleteBaseline { path, file_id, subtree } =>
                SettlementStepView::DeleteBaseline { path: path@, file_id: opt_str(*file_id), subtree: *subtree },
            SettlementStep::MarkFailed { file_id, path, message } =>
                SettlementStepView::MarkFailed { file_id: file_id@, path: path@, message: opt_str(*message) },
            SettlementStep::DropOtherPaths { file_id, path } =>
                SettlementStepView::DropOtherPaths { file_id: file_id@, path: path@ },
            SettlementStep::SettleSuccess => SettlementStepView::SettleSuccess,
        }
    }
}

/// The actions whose success removes the baseline of their path.
pub open spec fn removes_baseline(t: SyncActionType) -> bool {
    t == SyncActionType::DeleteFromCloud || t == SyncActionType::DeleteFromLocal
        || t == SyncActionType::BackupBeforeCloudDelete
}

/// Reason prefix of an upload that finishes a rename inside one folder.
pub open spec fn rename_reason_prefix() -> Seq<char> {
    "同目录改名检测："@
}

/// A non-empty file id; an empty one selects every row of the path.
pub open spec fn row_filter(file_id: Option<String>) -> Option<Seq<char>> {
    match file_id {
        Some(f) => if f@.len() > 0 { Some(f@) } else { None },
        None => None,
    }
}

/// The cloud tree holds a folder at `path`.
pub open spec fn cloud_folder_at(cloud: Map<Seq<char>, DriveFileView>, path: Seq<char>) -> bool {
    cloud.contains_key(path) && cloud[path].is_folder()
}

pub open spec fn msg_rename_without_id() -> Seq<char> {
    "同目录改名已完成但动作缺少 fileId"@
}

/// What settling `action` with `result` does, given the cloud tree before the
/// settlement.
pub open spec fn step_for(
    action: SyncAction,
    result: ActionResult,
    cloud: Map<Seq<char>, DriveFileView>,
) -> Result<SettlementStepView, Seq<char>> {
    match action.relative_path {
        None => Ok(SettlementStepView::Keep),
        Some(rel) => if result.success && removes_baseline(action.action_type) {
            if action.action_type == SyncActionType::DeleteFromCloud && cloud_folder_at(cloud, rel@) {
                Ok(SettlementStepView::DeleteBaseline { path: rel@, file_id: None, subtree: true })
            } else {
                Ok(SettlementStepView::DeleteBaseline { path: rel@, file_id: row_filter(action.file_id), subtree: false })
            }
        } else if !result.success {
            match action.file_id {
                Some(f) => if !result.deferred && !has_prefix(f@, pending_prefix()) {
                    Ok(SettlementStepView::MarkFailed {
                        file_id: f@, path: rel@, message: opt_str(result.error_message) })
                } else {
                    Ok(SettlementStepView::Keep)
                },
                None => Ok(SettlementStepView::Keep),
            }
        } else if action.action_type == SyncActionType::Upload
            || action.action_type == SyncActionType::Download {
            if action.action_type == SyncActionType::Upload && (action.reason matches Some(r)
                && has_prefix(r@, rename_reason_prefix())) {
                match action.file_id {
                    Some(f) => Ok(SettlementStepView::DropOtherPaths { file_id: f@, path: rel@ }),
                    None => Err(msg_rename_without_id()),
                }
            } else {
                Ok(SettlementStepView::Keep)
            }
        } else {
            Ok(SettlementStepView::SettleSuccess)
        },
    }
}

/// Whether `result` succeeded and `action` is a cloud deletion of a folder
/// that the tree holds.
fn is_folder_at(cloud: &PathMap<DriveFile>, path: &str) -> (b: bool)
    requires
        cloud.wf(),
    ensures
        b == cloud_folder_at(cloud.as_map(), path@),
{
    match cloud.get(path) {
        Some(f) => f.is_folder(),
        None => false,
    }
}

/// What settling `action` with `result` does to the persisted baselines.
pub fn settlement_step(
    action: &SyncAction,
    result: &ActionResult,
    cloud: &PathMap<DriveFile>,
) -> (r: Result<SettlementStep, AppError>)
    requires
        cloud.wf(),
    ensures
        match r {
            Ok(s) => step_for(*action, *result, cloud.as_map()) == Ok::<SettlementStepView, Seq<char>>(s@),
            Err(e) => e is Generic && step_for(*action, *result, cloud.as_map())
                == Err::<SettlementStepView, Seq<char>>(e.message_view()),
        },
{
    let rel = match &action.relative_path {
        None => return Ok(SettlementStep::Keep),
        Some(rel) => rel,
    };
    let removes = match action.action_type {
        SyncActionType::DeleteFromCloud => true,
        SyncActionType::DeleteFromLocal => true,
        SyncActionType::BackupBeforeCloudDelete => true,
        _ => false,
    };
    let is_cloud_delete = match action.action_type {
        SyncActionType::DeleteFromCloud => true,
        _ => false,
    };
    if result.success && removes {
        if is_cloud_delete && is_folder_at(cloud, rel.as_str()) {
            return Ok(SettlementStep::DeleteBaseline { path: rel.clone(), file_id: None, subtree: true });
        }
        let file_id = match &action.file_id {
            Some(f) => if f.unicode_len() > 0 { Some(f.clone()) } else { None },
            None => None,
        };
        return Ok(SettlementStep::DeleteBaseline { path: rel.clone(), file_id, subtree: false });
    }
    if !result.success {
        return match &action.file_id {
            Some(f) => if !result.deferred && !is_pending_file_id(f.as_str()) {
                Ok(SettlementStep::MarkFailed {
                    file_id: f.clone(),
                    path: rel.clone(),
                    message: crate::model::clone_opt_string(&result.error_message),
                })
            } else {
                Ok(SettlementStep::Keep)
            },
            None => Ok(SettlementStep::Keep),
        };
    }
    match action.action_type {
        SyncActionType::Upload => {
            let renamed = match &action.reason {
                Some(r) => starts_with(r.as_str(), "同目录改名检测："),
                None => false,
            };
            if renamed {
                match &action.file_id {
                    Some(f) => Ok(SettlementStep::DropOtherPaths { file_id: f.clone(), path: rel.clone() }),
                    None => Err(AppError::generic("同目录改名已完成但动作缺少 fileId")),
                }
            } else {
                Ok(SettlementStep::Keep)
            }
        },
        SyncActionType::Download => Ok(SettlementStep::Keep),
        _ => Ok(SettlementStep::SettleSuccess),
    }
}

/// Metadata of the local target of a settled action.
#[derive(Debug, Clone, Copy)]
pub struct LocalStat {
    pub is_symlink: bool,
    pub is_dir: bool,
    pub is_file: bool,
    /// Modification time in milliseconds, when the platform reports one.
    pub mtime_ms: Option<i64>,
    pub len: u64,
}

/// Where the local metadata of a settled action is read.
pub enum StatTarget {
    /// The action's own local path.
    LocalPath(String),
    /// The relative path under the mount root.
    MountRelative(String),
    /// Nowhere: the baseline keeps no local metadata.
    NoStat,
}

/// The baseline rows that a success baseline write touches besides the upsert.
pub struct UpsertPlan {
    /// The baseline row to insert or replace.
    pub item: SyncItem,
    /// First remove every row at the item's path (a folder recreated in the
    /// cloud has a new id).
    pub clear_path: bool,
    /// First remove the rows of the item's id at other paths (a move).
    pub drop_other_paths: bool,
    /// Remove the pending placeholder row of the item's path.
    pub drop_pending: bool,
}

/// Status that a success baseline gets.
pub open spec fn success_status(t: SyncActionType) -> i32 {
    if t == SyncActionType::CreatePlaceholder {
        CLOUD_ONLY
    } else if t == SyncActionType::CreateConflictCopy {
        CONFLICT
    } else {
        SYNCED
    }
}

/// The cloud file a success settles: the result's, else the action's.
pub open spec fn settled_file(action: SyncAction, result: ActionResult) -> Option<DriveFile> {
    match result.cloud_file {
        Some(f) => Some(f),
        None => action.cloud_file,
    }
}

/// The file id a success settles under, when it has a real one.
pub open spec fn settled_file_id(action: SyncAction, result: ActionResult) -> Option<Seq<char>> {
    match settled_file(action, result) {
        Some(f) => Some(f.id@),
        None => opt_str(action.file_id),
    }
}

/// Whether the local target of the action is read at settlement.
pub open spec fn target_for(action: SyncAction) -> Option<Seq<char>> {
    if action.action_type == SyncActionType::MoveInCloud {
        None
    } else {
        match action.local_path {
            Some(p) => Some(p@),
            None => if action.action_type == SyncActionType::CreatePlaceholder
                || action.action_type == SyncActionType::CreateFolder
                || action.action_type == SyncActionType::Skip {
                opt_str(action.relative_path)
            } else {
                None
            },
        }
    }
}

/// Where the local metadata of a settled action is read.
pub fn stat_target(action: &SyncAction) -> (t: StatTarget)
    ensures
        match t {
            StatTarget::LocalPath(p) => target_for(*action) == Some(p@) && action.local_path is Some,
            StatTarget::MountRelative(p) => target_for(*action) == Some(p@) && action.local_path is None,
            StatTarget::NoStat => target_for(*action) is None,
        },
{
    match action.action_type {
        SyncActionType::MoveInCloud => return StatTarget::NoStat,
        _ => {},
    }
    match &action.local_path {
        Some(p) => StatTarget::LocalPath(p.clone()),
        None => match action.action_type {
            SyncActionType::CreatePlaceholder | SyncActionType::CreateFolder | SyncActionType::Skip =>
                match &action.relative_path {
                    Some(rel) => StatTarget::MountRelative(rel.clone()),
                    None => StatTarget::NoStat,
                },
            _ => StatTarget::NoStat,
        },
    }
}

/// The baseline a confirmed move carries over: a row of the id at another
/// path, else any row of the id.
pub open spec fn move_baseline_index(baselines: Seq<SyncItem>, file_id: Seq<char>, rel: Seq<char>) -> Option<int> {
    if exists|i: int| 0 <= i < baselines.len() && baselines[i].file_id@ == file_id
        && baselines[i].local_path@ != rel {
        Some(choose|i: int| 0 <= i < baselines.len() && baselines[i].file_id@ == file_id
            && baselines[i].local_path@ != rel
            && forall|j: int| 0 <= j < i ==> !(baselines[j].file_id@ == file_id
                && baselines[j].local_path@ != rel))
    } else if exists|i: int| 0 <= i < baselines.len() && baselines[i].file_id@ == file_id {
        Some(choose|i: int| 0 <= i < baselines.len() && baselines[i].file_id@ == file_id
            && forall|j: int| 0 <= j < i ==> baselines[j].file_id@ != file_id)
    } else {
        None
    }
}

pub open spec fn msg_type_mismatch(rel: Seq<char>) -> Seq<char> {
    "成功动作结算时本地目标类型不一致："@ + rel
}

pub open spec fn msg_no_mtime(rel: Seq<char>) -> Seq<char> {
    "成功动作结算时无法读取本地修改时间："@ + rel
}

pub open spec fn msg_size_mismatch(rel: Seq<char>) -> Seq<char> {
    "待确认上传的本地大小与云端结果不一致，拒绝收敛成功："@ + rel
}

pub open spec fn msg_missing_move_baseline(file_id: Seq<char>) -> Seq<char> {
    "云端移动已确认但缺少原内容基线（fileId="@ + file_id + "）"@
}

/// The local metadata check of a success: `Ok((mtime, size))`, or the error.
pub open spec fn local_facts(
    action: SyncAction,
    file: Option<DriveFile>,
    rel: Seq<char>,
    stat: Option<LocalStat>,
) -> Result<(Option<i64>, Option<i64>), Seq<char>> {
    match stat {
        None => Ok((None, None)),
        Some(st) => {
            let expects_folder = action.action_type == SyncActionType::CreateFolder;
            if st.is_symlink || (expects_folder && !st.is_dir) || (!expects_folder && !st.is_file) {
                Err(msg_type_mismatch(rel))
            } else if st.mtime_ms is None {
                Err(msg_no_mtime(rel))
            } else if action.action_type == SyncActionType::Skip
                && (file matches Some(f) && f.size != st.len as i64) {
                Err(msg_size_mismatch(rel))
            } else {
                Ok((st.mtime_ms, Some(st.len as i64)))
            }
        },
    }
}

/// The success baseline row for `action`: its fields from the cloud file, the
/// carried move baseline or the local metadata.
pub open spec fn success_item(
    item: SyncItem,
    action: SyncAction,
    result: ActionResult,
    rel: Seq<char>,
    file_id: Seq<char>,
    carried: Option<SyncItem>,
    local: (Option<i64>, Option<i64>),
    now_ms: i64,
) -> bool {
    let file = settled_file(action, result);
    &&& item.file_id@ == file_id
    &&& item.local_path@ == rel
    &&& opt_str(item.parent_folder_id) == match file {
        Some(f) => match f@.first_parent() {
            Some(p) => Some(p),
            None => opt_str(action.parent_file_id),
        },
        None => opt_str(action.parent_file_id),
    }
    &&& item.name@ == file_name_of(rel)
    &&& item.size == match file { Some(f) => f.size, None => 0 }
    &&& item.cloud_edited_time == match file { Some(f) => f.edited_time, None => None }
    &&& match carried {
        Some(b) => {
            &&& item.local_mtime == b.local_mtime
            &&& item.local_size == b.local_size
            &&& item.sha256 == b.sha256
            &&& item.is_folder == b.is_folder
            &&& item.status == b.status
            &&& item.error_message == b.error_message
            &&& item.last_sync_time == b.last_sync_time
        },
        None => {
            &&& item.local_mtime == local.0
            &&& item.local_size == local.1
            &&& item.sha256 is None
            &&& item.is_folder == (action.action_type == SyncActionType::CreateFolder)
            &&& item.status == success_status(action.action_type)
            &&& item.error_message is None
            &&& item.last_sync_time == Some(now_ms)
        },
    }
}

/// The full effect of settling a success: `Ok(None)` writes nothing (no real
/// file id is known); `Ok(Some(plan))` writes the plan; `Err` names the
/// inconsistency.
pub open spec fn success_settles(
    r: Result<Option<UpsertPlan>, Seq<char>>,
    action: SyncAction,
    result: ActionResult,
    baselines: Seq<SyncItem>,
    stat: Option<LocalStat>,
    now_ms: i64,
) -> bool {
    let rel = match action.relative_path { Some(p) => p@, None => Seq::empty() };
    match settled_file_id(action, result) {
        None => r is Ok && r->Ok_0 is None,
        Some(fid) => {
            let is_move = action.action_type == SyncActionType::MoveInCloud;
            let idx = move_baseline_index(baselines, fid, rel);
            if is_move && idx is None {
                r == Err::<Option<UpsertPlan>, Seq<char>>(msg_missing_move_baseline(fid))
            } else if !is_move && local_facts(action, settled_file(action, result), rel, stat) is Err {
                r == Err::<Option<UpsertPlan>, Seq<char>>(
                    local_facts(action, settled_file(action, result), rel, stat)->Err_0)
            } else {
                let carried = if is_move { Some(baselines[idx->0]) } else { None };
                let local = if is_move { (None, None) } else {
                    local_facts(action, settled_file(action, result), rel, stat)->Ok_0 };
                &&& r is Ok
                &&& r->Ok_0 matches Some(plan)
                &&& success_item(plan.item, action, result, rel, fid, carried, local, now_ms)
                &&& plan.clear_path == (action.action_type == SyncActionType::CreateFolder
                    && action.cloud_file is None)
                &&& plan.drop_other_paths == is_move
                &&& plan.drop_pending == !has_prefix(fid, pending_prefix())
            }
        },
    }
}

/// Index of the baseline that a confirmed move of `file_id` to `rel` carries.
fn find_move_baseline(baselines: &Vec<SyncItem>, file_id: &str, rel: &str) -> (r: Option<usize>)
    ensures
        match r {
            Some(i) => i < baselines@.len() && move_baseline_index(baselines@, file_id@, rel@) == Some(i as int),
            None => move_baseline_index(baselines@, file_id@, rel@) is None,
        },
{
    let mut i: usize = 0;
    while i < baselines.len()
        invariant
            i <= baselines@.len(),
            forall|j: int| 0 <= j < i ==> !(baselines@[j].file_id@ == file_id@
                && baselines@[j].local_path@ != rel@),
        decreases baselines@.len() - i,
    {
        if crate::paths::str_equal(baselines[i].file_id.as_str(), file_id)
            && !crate::paths::str_equal(baselines[i].local_path.as_str(), rel) {
            proof {
                assert(baselines@[i as int].file_id@ == file_id@ && baselines@[i as int].local_path@ != rel@
                    && forall|j: int| 0 <= j < i as int ==> !(baselines@[j].file_id@ == file_id@
                        && baselines@[j].local_path@ != rel@));
                let w = choose|w: int| 0 <= w < baselines@.len() && baselines@[w].file_id@ == file_id@
                    && baselines@[w].local_path@ != rel@
                    && forall|j: int| 0 <= j < w ==> !(baselines@[j].file_id@ == file_id@
                        && baselines@[j].local_path@ != rel@);
                assert(w == i as int) by {
                    if w < i as int {} else if w > i as int {
                        assert(!(baselines@[i as int].file_id@ == file_id@
                            && baselines@[i as int].local_path@ != rel@));
                    }
                }
            }
            return Some(i);
        }
        i = i + 1;
    }
    let mut k: usize = 0;
    while k < baselines.len()
        invariant
            k <= baselines@.len(),
            forall|j: int| 0 <= j < baselines@.len() ==> !(baselines@[j].file_id@ == file_id@
                && baselines@[j].local_path@ != rel@),
            forall|j: int| 0 <= j < k ==> baselines@[j].file_id@ != file_id@,
        decreases baselines@.len() - k,
    {
        if crate::paths::str_equal(baselines[k].file_id.as_str(), file_id) {
            proof {
                assert(baselines@[k as int].file_id@ == file_id@
                    && forall|j: int| 0 <= j < k as int ==> baselines@[j].file_id@ != file_id@);
                let w = choose|w: int| 0 <= w < baselines@.len() && baselines@[w].file_id@ == file_id@
                    && forall|j: int| 0 <= j < w ==> baselines@[j].file_id@ != file_id@;
                assert(w == k as int) by {
                    if w < k as int {} else if w > k as int {
                        assert(baselines@[k as int].file_id@ == file_id@);
                    }
                }
            }
            return Some(k);
        }
        k = k + 1;
    }
    None
}

/// Check the local metadata of a success.
fn check_local_facts(
    action: &SyncAction,
    file: Option<&DriveFile>,
    rel: &str,
    stat: Option<LocalStat>,
) -> (r: Result<(Option<i64>, Option<i64>), AppError>)
    ensures
        match r {
            Ok(v) => local_facts(*action, match file { Some(f) => Some(*f), None => None }, rel@, stat)
                == Ok::<(Option<i64>, Option<i64>), Seq<char>>(v),
            Err(e) => e is Generic && local_facts(*action, match file { Some(f) => Some(*f), None => None }, rel@, stat)
                == Err::<(Option<i64>, Option<i64>), Seq<char>>(e.message_view()),
        },
{
    match stat {
        None => Ok((None, None)),
        Some(st) => {
            let expects_folder = match action.action_type {
                SyncActionType::CreateFolder => true,
                _ => false,
            };
            if st.is_symlink || (expects_folder && !st.is_dir) || (!expects_folder && !st.is_file) {
                return Err(AppError::generic(concat("成功动作结算时本地目标类型不一致：", rel).as_str()));
            }
            if st.mtime_ms.is_none() {
                return Err(AppError::generic(concat("成功动作结算时无法读取本地修改时间：", rel).as_str()));
            }
            let is_skip = match action.action_type {
                SyncActionType::Skip => true,
                _ => false,
            };
            let len = st.len as i64;
            if is_skip {
                if let Some(f) = file {
                    if f.size != len {
                        return Err(AppError::generic(
                            concat("待确认上传的本地大小与云端结果不一致，拒绝收敛成功：", rel).as_str()));
                    }
                }
            }
            Ok((st.mtime_ms, Some(len)))
        },
    }
}

/// Plan the baseline write of a successful action that settles as a
/// baseline: the row comes from the cloud file the result or the action
/// carries; a confirmed move carries over the content baseline it had, other
/// actions take the local metadata `stat` of their [`stat_target`].
pub fn settle_success(
    action: &SyncAction,
    result: &ActionResult,
    baselines: &Vec<SyncItem>,
    stat: Option<LocalStat>,
    now_ms: i64,
) -> (r: Result<Option<UpsertPlan>, AppError>)
    ensures
        success_settles(match r { Ok(p) => Ok(p), Err(e) => Err(e.message_view()) },
            *action, *result, baselines@, stat, now_ms),
        r matches Err(e) ==> e is Generic,
{
    let empty = String::new();
    let rel: &String = match &action.relative_path {
        Some(p) => p,
        None => &empty,
    };
    let file: Option<&DriveFile> = match &result.cloud_file {
        Some(f) => Some(f),
        None => match &action.cloud_file {
            Some(f) => Some(f),
            None => None,
        },
    };
    let file_id: String = match file {
        Some(f) => f.id.clone(),
        None => match &action.file_id {
            Some(f) => f.clone(),
            None => return Ok(None),
        },
    };
    let is_move = match action.action_type {
        SyncActionType::MoveInCloud => true,
        _ => false,
    };
    let carried: Option<&SyncItem> = if is_move {
        match find_move_baseline(baselines, file_id.as_str(), rel.as_str()) {
            Some(i) => Some(&baselines[i]),
            None => {
                let mut m = concat("云端移动已确认但缺少原内容基线（fileId=", file_id.as_str());
                crate::text::push_str(&mut m, "）");
                return Err(AppError::generic(m.as_str()));
            },
        }
    } else {
        None
    };
    let (local_mtime, local_size) = if is_move {
        (None, None)
    } else {
        match check_local_facts(action, file, rel.as_str(), stat) {
            Ok(v) => v,
            Err(e) => return Err(e),
        }
    };
    let parent_folder_id = match file {
        Some(f) => match f.first_parent() {
            Some(p) => Some(p),
            None => crate::model::clone_opt_string(&action.parent_file_id),
        },
        None => crate::model::clone_opt_string(&action.parent_file_id),
    };
    let size = match file { Some(f) => f.size, None => 0 };
    let cloud_edited_time = match file { Some(f) => f.edited_time, None => None };
    let drop_pending = !is_pending_file_id(file_id.as_str());
    let clear_path = match action.action_type {
        SyncActionType::CreateFolder => action.cloud_file.is_none(),
        _ => false,
    };
    let item = match carried {
        Some(b) => SyncItem {
            file_id,
            local_path: rel.clone(),
            parent_folder_id,
            name: file_name(rel.as_str()),
            is_folder: b.is_folder,
            size,
            local_size: b.local_size,
            sha256: b.sha256.clone(),
            local_mtime: b.local_mtime,
            cloud_edited_time,
            last_sync_time: b.last_sync_time,
            status: b.status,
            error_message: b.error_message.clone(),
        },
        None => {
            let status = match action.action_type {
                SyncActionType::CreatePlaceholder => CLOUD_ONLY,
                SyncActionType::CreateConflictCopy => CONFLICT,
                _ => SYNCED,
            };
            SyncItem {
                file_id,
                local_path: rel.clone(),
                parent_folder_id,
                name: file_name(rel.as_str()),
                is_folder: match action.action_type {
                    SyncActionType::CreateFolder => true,
                    _ => false,
                },
                size,
                local_size,
                sha256: None,
                local_mtime,
                cloud_edited_time,
                last_sync_time: Some(now_ms),
                status,
                error_message: None,
            }
        },
    };
    Ok(Some(UpsertPlan { item, clear_path, drop_other_paths: is_move, drop_pending }))
}

/// The set of keys listed in `s`.
pub open spec fn key_set(s: Seq<Seq<char>>) -> Set<Seq<char>> {
    Set::new(|k: Seq<char>| s.contains(k))
}

/// Remove every listed key from the map.
pub fn remove_all<V: View>(m: &mut PathMap<V>, keys: &Vec<String>)
    requires
        old(m).wf(),
    ensures
        final(m).wf(),
        final(m).as_map() == old(m).as_map().remove_keys(key_set(strs(*keys))),
{
    let ghost start = m.as_map();
    let mut i: usize = 0;
    assert(start.remove_keys(key_set(strs(*keys).take(0))) =~= start);
    while i < keys.len()
        invariant
            m.wf(),
            i <= keys@.len(),
            m.as_map() == start.remove_keys(key_set(strs(*keys).take(i as int))),
        decreases keys@.len() - i,
    {
        let ghost before = m.as_map();
        m.remove(keys[i].as_str());
        proof {
            let prev = strs(*keys).take(i as int);
            let next = strs(*keys).take(i as int + 1);
            assert(next =~= prev.push(keys@[i as int]@));
            assert forall|k: Seq<char>| key_set(next).contains(k)
                <==> (key_set(prev).contains(k) || k == keys@[i as int]@) by {
                if k == keys@[i as int]@ {
                    assert(next[i as int] == k);
                }
                if key_set(prev).contains(k) {
                    let w = choose|w: int| 0 <= w < prev.len() && prev[w] == k;
                    assert(next[w] == k);
                }
                if key_set(next).contains(k) && k != keys@[i as int]@ {
                    let w = choose|w: int| 0 <= w < next.len() && next[w] == k;
                    assert(prev[w] == k);
                }
            }
            assert(m.as_map() =~= start.remove_keys(key_set(next)));
        }
        i = i + 1;
    }
    assert(strs(*keys).take(keys@.len() as int) =~= strs(*keys));
}

/// The cache paths that a confirmed cloud deletion of `root` removes, as the
/// tree held them before the settlement: the whole subtree of a folder, else
/// the root alone.
pub open spec fn deleted_paths(cloud0: Map<Seq<char>, DriveFileView>, root: Seq<char>) -> Set<Seq<char>> {
    if cloud_folder_at(cloud0, root) {
        cloud0.dom().filter(|k: Seq<char>| in_subtree(k, root))
    } else {
        set![root]
    }
}

/// The other paths that the cloud tree holds under the id `id`.
pub open spec fn stale_paths(cloud: Map<Seq<char>, DriveFileView>, rel: Seq<char>, id: Seq<char>) -> Set<Seq<char>> {
    cloud.dom().filter(|k: Seq<char>| k != rel && cloud[k].id == id)
}

/// The three caches: cloud tree, path index, recent deletions.
pub type Caches = (Map<Seq<char>, DriveFileView>, Map<Seq<char>, Seq<char>>, Map<Seq<char>, i64>);

/// Publishing one settled result to the caches. `cloud0` is the cloud tree
/// before the settlement.
pub open spec fn publish_step(
    c: Caches,
    action: SyncAction,
    result: ActionResult,
    cloud0: Map<Seq<char>, DriveFileView>,
    now_ms: i64,
) -> Caches {
    match action.relative_path {
        None => c,
        Some(rel) => {
            let rd1 = if result.success && removes_baseline(action.action_type) {
                c.2.insert(rel@, now_ms)
            } else {
                c.2
            };
            if result.success && action.action_type == SyncActionType::DeleteFromCloud {
                let gone = deleted_paths(cloud0, rel@);
                (c.0.remove_keys(gone), c.1.remove_keys(gone), rd1.insert(rel@, now_ms))
            } else if result.success && settled_file(action, result) is Some {
                let f = settled_file(action, result)->0;
                let stale = stale_paths(c.0, rel@, f.id@);
                (c.0.remove_keys(stale).insert(rel@, f@), c.1.remove_keys(stale).insert(rel@, f.id@), rd1)
            } else {
                (c.0, c.1, rd1)
            }
        },
    }
}

/// Publishing the first `n` settled results, in order.
pub open spec fn publish_upto(
    c0: Caches,
    actions: Seq<SyncAction>,
    results: Seq<ActionResult>,
    n: int,
    now_ms: i64,
) -> Caches
    decreases n,
{
    if n <= 0 {
        c0
    } else {
        publish_step(publish_upto(c0, actions, results, n - 1, now_ms), actions[n - 1], results[n - 1], c0.0, now_ms)
    }
}

/// Recent deletions younger than five minutes at `now_ms`.
pub open spec fn recent_only(rd: Map<Seq<char>, i64>, now_ms: i64) -> Map<Seq<char>, i64> {
    rd.remove_keys(rd.dom().filter(|k: Seq<char>| rd[k] <= now_ms - 300_000))
}

/// The keys of `cloud` in the subtree of `root`, in order.
pub fn subtree_keys(cloud: &PathMap<DriveFile>, root: &str) -> (r: Vec<String>)
    requires
        cloud.wf(),
    ensures
        key_set(strs(r)) == cloud.as_map().dom().filter(|k: Seq<char>| in_subtree(k, root@)),
{
    let mut r: Vec<String> = Vec::new();
    let mut i: usize = 0;
    while i < cloud.len()
        invariant
            cloud.wf(),
            i <= cloud.keys().len(),
            forall|k: Seq<char>| #[trigger] strs(r).contains(k) <==> (exists|j: int| 0 <= j < i
                && cloud.keys()[j] == k && in_subtree(k, root@)),
        decreases cloud.keys().len() - i,
    {
        let key = cloud.key(i);
        if is_in_subtree(key.as_str(), root) {
            let ghost before = strs(r);
            r.push(key.clone());
            proof {
                assert(strs(r) =~= before.push(key@));
                assert forall|k: Seq<char>| #[trigger] strs(r).contains(k) <==> (exists|j: int| 0 <= j < i + 1
                    && cloud.keys()[j] == k && in_subtree(k, root@)) by {
                    if strs(r).contains(k) {
                        let w = choose|w: int| 0 <= w < strs(r).len() && strs(r)[w] == k;
                        if w < before.len() {
                            assert(before[w] == k);
                            assert(before.contains(k));
                        } else {
                            assert(cloud.keys()[i as int] == k);
                        }
                    }
                    if exists|j: int| 0 <= j < i + 1 && cloud.keys()[j] == k && in_subtree(k, root@) {
                        let j = choose|j: int| 0 <= j < i + 1 && cloud.keys()[j] == k && in_subtree(k, root@);
                        if j < i {
                            assert(before.contains(k));
                            let w = choose|w: int| 0 <= w < before.len() && before[w] == k;
                            assert(strs(r)[w] == k);
                        } else {
                            assert(strs(r)[before.len() as int] == k);
                        }
                    }
                }
            }
        }
        i = i + 1;
    }
    proof {
        assert forall|k: Seq<char>| key_set(strs(r)).contains(k)
            <==> cloud.as_map().dom().filter(|k: Seq<char>| in_subtree(k, root@)).contains(k) by {
            if cloud.as_map().dom().contains(k) && in_subtree(k, root@) {
                let j = choose|j: int| 0 <= j < cloud.keys().len() && cloud.keys()[j] == k;
                assert(cloud.keys()[j] == k);
            }
        }
        assert(key_set(strs(r)) =~= cloud.as_map().dom().filter(|k: Seq<char>| in_subtree(k, root@)));
    }
    r
}

/// The paths that a confirmed cloud deletion of `root` removes from the caches.
fn deleted_path_list(cloud: &PathMap<DriveFile>, root: &str) -> (r: Vec<String>)
    requires
        cloud.wf(),
    ensures
        key_set(strs(r)) == deleted_paths(cloud.as_map(), root@),
{
    if is_folder_at(cloud, root) {
        subtree_keys(cloud, root)
    } else {
        let mut r: Vec<String> = Vec::new();
        r.push(root.to_owned());
        proof {
            assert(strs(r) =~= seq![root@]);
            assert forall|k: Seq<char>| key_set(strs(r)).contains(k) <==> set![root@].contains(k) by {
                if k == root@ {
                    assert(strs(r)[0] == k);
                }
            }
            assert(key_set(strs(r)) =~= set![root@]);
        }
        r
    }
}

/// The other paths that the cloud tree holds under the id `id`.
fn stale_path_list(cloud: &PathMap<DriveFile>, rel: &str, id: &str) -> (r: Vec<String>)
    requires
        cloud.wf(),
    ensures
        key_set(strs(r)) == stale_paths(cloud.as_map(), rel@, id@),
{
    let mut r: Vec<String> = Vec::new();
    let mut i: usize = 0;
    while i < cloud.len()
        invariant
            cloud.wf(),
            i <= cloud.keys().len(),
            forall|k: Seq<char>| #[trigger] strs(r).contains(k) <==> (exists|j: int| 0 <= j < i
                && cloud.keys()[j] == k && k != rel@ && cloud.as_map()[k].id == id@),
        decreases cloud.keys().len() - i,
    {
        let key = cloud.key(i);
        let value = cloud.value(i);
        proof {
            cloud.lemma_lookup(i as int);
        }
        if !crate::paths::str_equal(key.as_str(), rel) && crate::paths::str_equal(value.id.as_str(), id) {
            let ghost before = strs(r);
            r.push(key.clone());
            proof {
                assert(strs(r) =~= before.push(key@));
                assert forall|k: Seq<char>| #[trigger] strs(r).contains(k) <==> (exists|j: int| 0 <= j < i + 1
                    && cloud.keys()[j] == k && k != rel@ && cloud.as_map()[k].id == id@) by {
                    if strs(r).contains(k) {
                        let w = choose|w: int| 0 <= w < strs(r).len() && strs(r)[w] == k;
                        if w < before.len() {
                            assert(before[w] == k);
                            assert(before.contains(k));
                        } else {
                            assert(cloud.keys()[i as int] == k);
                        }
                    }
                    if exists|j: int| 0 <= j < i + 1 && cloud.keys()[j] == k && k != rel@ && cloud.as_map()[k].id == id@ {
                        let j = choose|j: int| 0 <= j < i + 1 && cloud.keys()[j] == k && k != rel@
                            && cloud.as_map()[k].id == id@;
                        if j < i {
                            assert(before.contains(k));
                            let w = choose|w: int| 0 <= w < before.len() && before[w] == k;
                            assert(strs(r)[w] == k);
                        } else {
                            assert(strs(r)[before.len() as int] == k);
                        }
                    }
                }
            }
        }
        i = i + 1;
    }
    proof {
        assert forall|k: Seq<char>| key_set(strs(r)).contains(k)
            <==> stale_paths(cloud.as_map(), rel@, id@).contains(k) by {
            if stale_paths(cloud.as_map(), rel@, id@).contains(k) {
                let j = choose|j: int| 0 <= j < cloud.keys().len() && cloud.keys()[j] == k;
                assert(cloud.keys()[j] == k);
            }
        }
        assert(key_set(strs(r)) =~= stale_paths(cloud.as_map(), rel@, id@));
    }
    r
}

/// The keys of recent deletions at least five minutes old at `now_ms`.
fn expired_keys(rd: &PathMap<i64>, now_ms: i64) -> (r: Vec<String>)
    requires
        rd.wf(),
        now_ms >= i64::MIN + 300_000,
    ensures
        key_set(strs(r)) == rd.as_map().dom().filter(|k: Seq<char>| rd.as_map()[k] <= now_ms - 300_000),
{
    let cutoff = now_ms - 300_000;
    let mut r: Vec<String> = Vec::new();
    let mut i: usize = 0;
    while i < rd.len()
        invariant
            rd.wf(),
            cutoff == now_ms - 300_000,
            i <= rd.keys().len(),
            forall|k: Seq<char>| #[trigger] strs(r).contains(k) <==> (exists|j: int| 0 <= j < i
                && rd.keys()[j] == k && rd.as_map()[k] <= cutoff),
        decreases rd.keys().len() - i,
    {
        let key = rd.key(i);
        let value = rd.value(i);
        proof {
            rd.lemma_lookup(i as int);
        }
        if *value <= cutoff {
            let ghost before = strs(r);
            r.push(key.clone());
            proof {
                assert(strs(r) =~= before.push(key@));
                assert forall|k: Seq<char>| #[trigger] strs(r).contains(k) <==> (exists|j: int| 0 <= j < i + 1
                    && rd.keys()[j] == k && rd.as_map()[k] <= cutoff) by {
                    if strs(r).contains(k) {
                        let w = choose|w: int| 0 <= w < strs(r).len() && strs(r)[w] == k;
                        if w < before.len() {
                            assert(before[w] == k);
                            assert(before.contains(k));
                        } else {
                            assert(rd.keys()[i as int] == k);
                        }
                    }
                    if exists|j: int| 0 <= j < i + 1 && rd.keys()[j] == k && rd.as_map()[k] <= cutoff {
                        let j = choose|j: int| 0 <= j < i + 1 && rd.keys()[j] == k && rd.as_map()[k] <= cutoff;
                        if j < i {
                            assert(before.contains(k));
                            let w = choose|w: int| 0 <= w < before.len() && before[w] == k;
                            assert(strs(r)[w] == k);
                        } else {
                            assert(strs(r)[before.len() as int] == k);
                        }
                    }
                }
            }
        }
        i = i + 1;
    }
    proof {
        assert forall|k: Seq<char>| key_set(strs(r)).contains(k)
            <==> rd.as_map().dom().filter(|k: Seq<char>| rd.as_map()[k] <= now_ms - 300_000).contains(k) by {
            if rd.as_map().dom().contains(k) && rd.as_map()[k] <= now_ms - 300_000 {
                let j = choose|j: int| 0 <= j < rd.keys().len() && rd.keys()[j] == k;
                assert(rd.keys()[j] == k);
            }
        }
        assert(key_set(strs(r)) =~= rd.as_map().dom().filter(|k: Seq<char>| rd.as_map()[k] <= now_ms - 300_000));
    }
    r
}

/// Whether `action` with `result` is a confirmed cloud deletion with a path.
pub open spec fn confirmed_cloud_delete(action: SyncAction, result: ActionResult) -> bool {
    result.success && action.action_type == SyncActionType::DeleteFromCloud && action.relative_path is Some
}

/// After the baselines of `actions` were committed, publish their results to
/// the caches in order: a confirmed cloud deletion drops the paths it removed
/// (its subtree, as the tree held it before) and is remembered as a recent
/// deletion, like every confirmed deletion or backup; any other success with a
/// cloud file puts the file at its path, dropping the other paths of the same
/// id. Finally recent deletions older than five minutes are forgotten.
pub fn publish_settled_results(
    cloud: &mut PathMap<DriveFile>,
    path_to_id: &mut PathMap<String>,
    recently_deleted: &mut PathMap<i64>,
    actions: &Vec<SyncAction>,
    results: &Vec<ActionResult>,
    now_ms: i64,
)
    requires
        old(cloud).wf(),
        old(path_to_id).wf(),
        old(recently_deleted).wf(),
        now_ms >= i64::MIN + 300_000,
    ensures
        final(cloud).wf(),
        final(path_to_id).wf(),
        final(recently_deleted).wf(),
        final(cloud).as_map() == publish_upto((old(cloud).as_map(), old(path_to_id).as_map(),
            old(recently_deleted).as_map()), actions@, results@,
            if actions@.len() < results@.len() { actions@.len() as int } else { results@.len() as int }, now_ms).0,
        final(path_to_id).as_map() == publish_upto((old(cloud).as_map(), old(path_to_id).as_map(),
            old(recently_deleted).as_map()), actions@, results@,
            if actions@.len() < results@.len() { actions@.len() as int } else { results@.len() as int }, now_ms).1,
        final(recently_deleted).as_map() == recent_only(publish_upto((old(cloud).as_map(),
            old(path_to_id).as_map(), old(recently_deleted).as_map()), actions@, results@,
            if actions@.len() < results@.len() { actions@.len() as int } else { results@.len() as int }, now_ms).2,
            now_ms),
{
    let ghost c0: Caches = (cloud.as_map(), path_to_id.as_map(), recently_deleted.as_map());
    let n = if actions.len() < results.len() { actions.len() } else { results.len() };
    let mut captured: Vec<Vec<String>> = Vec::new();
    let mut i: usize = 0;
    while i < n
        invariant
            cloud.wf(),
            cloud.as_map() == c0.0,
            n <= actions@.len(),
            n <= results@.len(),
            i <= n,
            captured@.len() == i,
            forall|j: int| 0 <= j < i && confirmed_cloud_delete(#[trigger] actions@[j], results@[j]) ==>
                key_set(strs(captured@[j])) == deleted_paths(c0.0, actions@[j].relative_path->0@),
        decreases n - i,
    {
        let a = &actions[i];
        let r = &results[i];
        let is_cloud_delete = match a.action_type {
            SyncActionType::DeleteFromCloud => true,
            _ => false,
        };
        let list = if r.success && is_cloud_delete && a.relative_path.is_some() {
            deleted_path_list(cloud, a.relative_path.as_ref().unwrap().as_str())
        } else {
            Vec::new()
        };
        captured.push(list);
        i = i + 1;
    }
    let mut i: usize = 0;
    while i < n
        invariant
            cloud.wf(),
            path_to_id.wf(),
            recently_deleted.wf(),
            n <= actions@.len(),
            n <= results@.len(),
            i <= n,
            captured@.len() == n,
            forall|j: int| 0 <= j < n && confirmed_cloud_delete(#[trigger] actions@[j], results@[j]) ==>
                key_set(strs(captured@[j])) == deleted_paths(c0.0, actions@[j].relative_path->0@),
            (cloud.as_map(), path_to_id.as_map(), recently_deleted.as_map())
                == publish_upto(c0, actions@, results@, i as int, now_ms),
        decreases n - i,
    {
        let a = &actions[i];
        let r = &results[i];
        let ghost before: Caches = (cloud.as_map(), path_to_id.as_map(), recently_deleted.as_map());
        if let Some(rel) = &a.relative_path {
            let removes = match a.action_type {
                SyncActionType::DeleteFromCloud => true,
                SyncActionType::DeleteFromLocal => true,
                SyncActionType::BackupBeforeCloudDelete => true,
                _ => false,
            };
            let is_cloud_delete = match a.action_type {
                SyncActionType::DeleteFromCloud => true,
                _ => false,
            };
            if r.success && removes {
                recently_deleted.insert(rel.clone(), now_ms);
            }
            if r.success && is_cloud_delete {
                assert(confirmed_cloud_delete(actions@[i as int], results@[i as int]));
                remove_all(cloud, &captured[i]);
                remove_all(path_to_id, &captured[i]);
                recently_deleted.insert(rel.clone(), now_ms);
            } else if r.success {
                let file: Option<&DriveFile> = match &r.cloud_file {
                    Some(f) => Some(f),
                    None => match &a.cloud_file {
                        Some(f) => Some(f),
                        None => None,
                    },
                };
                if let Some(f) = file {
                    let stale = stale_path_list(cloud, rel.as_str(), f.id.as_str());
                    remove_all(cloud, &stale);
                    remove_all(path_to_id, &stale);
                    cloud.insert(rel.clone(), f.duplicate());
                    path_to_id.insert(rel.clone(), f.id.clone());
                }
            }
        }
        proof {
            assert((cloud.as_map(), path_to_id.as_map(), recently_deleted.as_map())
                == publish_step(before, actions@[i as int], results@[i as int], c0.0, now_ms));
        }
        i = i + 1;
    }
    let expired = expired_keys(recently_deleted, now_ms);
    remove_all(recently_deleted, &expired);
}

/// The number of action/result pairs.
pub open spec fn pair_count(actions: Seq<SyncAction>, results: Seq<ActionResult>) -> int {
    if actions.len() < results.len() { actions.len() as int } else { results.len() as int }
}

/// A successful action other than a skip changed content on some side.
pub open spec fn changed_content(actions: Seq<SyncAction>, results: Seq<ActionResult>) -> bool {
    exists|i: int| 0 <= i < pair_count(actions, results) && (#[trigger] results[i]).success
        && actions[i].action_type != SyncActionType::Skip
}

/// Whether a cycle's results changed content (and the caches need a new state).
pub fn cycle_changed_content(actions: &Vec<SyncAction>, results: &Vec<ActionResult>) -> (b: bool)
    ensures
        b == changed_content(actions@, results@),
{
    let n = if actions.len() < results.len() { actions.len() } else { results.len() };
    let mut i: usize = 0;
    while i < n
        invariant
            n == pair_count(actions@, results@),
            i <= n,
            forall|j: int| 0 <= j < i ==> !((#[trigger] results@[j]).success
                && actions@[j].action_type != SyncActionType::Skip),
        decreases n - i,
    {
        let is_skip = match actions[i].action_type {
            SyncActionType::Skip => true,
            _ => false,
        };
        if results[i].success && !is_skip {
            assert(results@[i as int].success);
            return true;
        }
        i = i + 1;
    }
    false
}

/// A cloud move succeeded.
pub open spec fn moved_in_cloud(actions: Seq<SyncAction>, results: Seq<ActionResult>) -> bool {
    exists|i: int| 0 <= i < pair_count(actions, results) && (#[trigger] results[i]).success
        && actions[i].action_type == SyncActionType::MoveInCloud
}

/// Whether a cloud move succeeded (its content is checked by a new rescan).
pub fn cycle_moved_in_cloud(actions: &Vec<SyncAction>, results: &Vec<ActionResult>) -> (b: bool)
    ensures
        b == moved_in_cloud(actions@, results@),
{
    let n = if actions.len() < results.len() { actions.len() } else { results.len() };
    let mut i: usize = 0;
    while i < n
        invariant
            n == pair_count(actions@, results@),
            i <= n,
            forall|j: int| 0 <= j < i ==> !((#[trigger] results@[j]).success
                && actions@[j].action_type == SyncActionType::MoveInCloud),
        decreases n - i,
    {
        let is_move = match actions[i].action_type {
            SyncActionType::MoveInCloud => true,
            _ => false,
        };
        if results[i].success && is_move {
            assert(results@[i as int].success);
            return true;
        }
        i = i + 1;
    }
    false
}

/// A confirmed cloud file at a path, to be committed to the checkpoint.
pub struct RecoveredCloudFile {
    pub relative_path: String,
    pub file: DriveFile,
}

/// The confirmed cloud moves among the first `n` pairs that report their
/// file: (path, file), in order.
pub open spec fn recovered_upto(actions: Seq<SyncAction>, results: Seq<ActionResult>, n: int) -> Seq<(Seq<char>, DriveFileView)>
    decreases n,
{
    if n <= 0 {
        Seq::empty()
    } else {
        let prev = recovered_upto(actions, results, n - 1);
        let a = actions[n - 1];
        let r = results[n - 1];
        if r.success && a.action_type == SyncActionType::MoveInCloud && a.relative_path is Some && r.cloud_file is Some {
            prev.push((a.relative_path->0@, r.cloud_file->0@))
        } else {
            prev
        }
    }
}

/// The confirmed cloud moves that report their file, to be committed to the
/// trusted checkpoint before their baselines.
pub fn recovered_moves(actions: &Vec<SyncAction>, results: &Vec<ActionResult>) -> (r: Vec<RecoveredCloudFile>)
    ensures
        r@.len() == recovered_upto(actions@, results@, pair_count(actions@, results@)).len(),
        forall|k: int| 0 <= k < r@.len() ==> (#[trigger] r@[k]).relative_path@
            == recovered_upto(actions@, results@, pair_count(actions@, results@))[k].0
            && r@[k].file@ == recovered_upto(actions@, results@, pair_count(actions@, results@))[k].1,
{
    let n = if actions.len() < results.len() { actions.len() } else { results.len() };
    let mut r: Vec<RecoveredCloudFile> = Vec::new();
    let mut i: usize = 0;
    while i < n
        invariant
            n == pair_count(actions@, results@),
            i <= n,
            r@.len() == recovered_upto(actions@, results@, i as int).len(),
            forall|k: int| 0 <= k < r@.len() ==> (#[trigger] r@[k]).relative_path@
                == recovered_upto(actions@, results@, i as int)[k].0
                && r@[k].file@ == recovered_upto(actions@, results@, i as int)[k].1,
        decreases n - i,
    {
        let a = &actions[i];
        let res = &results[i];
        let is_move = match a.action_type {
            SyncActionType::MoveInCloud => true,
            _ => false,
        };
        if res.success && is_move {
            if let (Some(p), Some(f)) = (&a.relative_path, &res.cloud_file) {
                r.push(RecoveredCloudFile { relative_path: p.clone(), file: f.duplicate() });
            }
        }
        i = i + 1;
    }
    r
}

/// Putting one confirmed cloud file at its path: the other paths of its id
/// leave the tree and the path index.
pub open spec fn place_file(
    c: (Map<Seq<char>, DriveFileView>, Map<Seq<char>, Seq<char>>),
    rel: Seq<char>,
    f: DriveFileView,
) -> (Map<Seq<char>, DriveFileView>, Map<Seq<char>, Seq<char>>) {
    let stale = stale_paths(c.0, rel, f.id);
    (c.0.remove_keys(stale).insert(rel, f), c.1.remove_keys(stale).insert(rel, f.id))
}

/// Placing the first `n` recovered files, in order.
pub open spec fn merge_upto(
    c0: (Map<Seq<char>, DriveFileView>, Map<Seq<char>, Seq<char>>),
    recovered: Seq<RecoveredCloudFile>,
    n: int,
) -> (Map<Seq<char>, DriveFileView>, Map<Seq<char>, Seq<char>>)
    decreases n,
{
    if n <= 0 {
        c0
    } else {
        place_file(merge_upto(c0, recovered, n - 1), recovered[n - 1].relative_path@, recovered[n - 1].file@)
    }
}

/// Merge the cloud files that recovered transfers confirmed into a candidate
/// tree and path index, in order.
pub fn merge_recovered(
    tree: &mut PathMap<DriveFile>,
    path_to_id: &mut PathMap<String>,
    recovered: &Vec<RecoveredCloudFile>,
)
    requires
        old(tree).wf(),
        old(path_to_id).wf(),
    ensures
        final(tree).wf(),
        final(path_to_id).wf(),
        (final(tree).as_map(), final(path_to_id).as_map())
            == merge_upto((old(tree).as_map(), old(path_to_id).as_map()), recovered@, recovered@.len() as int),
{
    let ghost c0 = (tree.as_map(), path_to_id.as_map());
    let mut i: usize = 0;
    while i < recovered.len()
        invariant
            tree.wf(),
            path_to_id.wf(),
            i <= recovered@.len(),
            (tree.as_map(), path_to_id.as_map()) == merge_upto(c0, recovered@, i as int),
        decreases recovered@.len() - i,
    {
        let item = &recovered[i];
        let stale = stale_path_list(tree, item.relative_path.as_str(), item.file.id.as_str());
        remove_all(tree, &stale);
        remove_all(path_to_id, &stale);
        tree.insert(item.relative_path.clone(), item.file.duplicate());
        path_to_id.insert(item.relative_path.clone(), item.file.id.clone());
        i = i + 1;
    }
}

/// The tombstone paths to purge: not held by an unsettled change, and gone
/// from the trusted tree.
pub open spec fn purges_tombstone(
    row: (String, String),
    cloud: Map<Seq<char>, DriveFileView>,
    blocked: Seq<crate::path_recovery::BlockedPathChange>,
) -> bool {
    !crate::action_filters::blocked_identity(Some(row.0@), Some(row.1@), blocked) && !cloud.contains_key(row.0@)
}

/// The tombstone rows (path, file id) to purge, in order.
pub fn tombstones_to_purge(
    rows: &Vec<(String, String)>,
    cloud: &PathMap<DriveFile>,
    blocked_changes: &Vec<crate::path_recovery::BlockedPathChange>,
) -> (r: Vec<String>)
    requires
        cloud.wf(),
    ensures
        strs(r) == rows@.filter(|row: (String, String)| purges_tombstone(row, cloud.as_map(), blocked_changes@))
            .map_values(|row: (String, String)| row.0@),
{
    let mut r: Vec<String> = Vec::new();
    let mut i: usize = 0;
    proof {
        crate::retain::lemma_filter_empty(rows@.take(0),
            |row: (String, String)| purges_tombstone(row, cloud.as_map(), blocked_changes@));
        assert(strs(r) =~= rows@.take(0).filter(|row: (String, String)| purges_tombstone(row, cloud.as_map(), blocked_changes@))
            .map_values(|row: (String, String)| row.0@));
    }
    while i < rows.len()
        invariant
            cloud.wf(),
            i <= rows@.len(),
            strs(r) == rows@.take(i as int).filter(|row: (String, String)| purges_tombstone(row, cloud.as_map(), blocked_changes@))
                .map_values(|row: (String, String)| row.0@),
        decreases rows@.len() - i,
    {
        proof {
            crate::retain::lemma_filter_take_step(rows@, i as int,
                |row: (String, String)| purges_tombstone(row, cloud.as_map(), blocked_changes@));
        }
        let row = &rows[i];
        if !crate::action_filters::is_blocked_path_identity(Some(row.0.as_str()), Some(row.1.as_str()), blocked_changes)
            && !cloud.contains_key(row.0.as_str()) {
            let ghost before = strs(r);
            r.push(row.0.clone());
            assert(strs(r) =~= before.push(row.0@));
        }
        proof {
            let p = |row: (String, String)| purges_tombstone(row, cloud.as_map(), blocked_changes@);
            let prev = rows@.take(i as int).filter(p);
            if p(rows@[i as int]) {
                assert(prev.push(rows@[i as int]).map_values(|row: (String, String)| row.0@)
                    =~= prev.map_values(|row: (String, String)| row.0@).push(rows@[i as int].0@));
            }
        }
        i = i + 1;
    }
    assert(rows@.take(rows@.len() as int) =~= rows@);
    r
}

} // verus!
