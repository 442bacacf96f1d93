use petal_sync::action_flows::{
    after_cloud_delete, after_cloud_delete_check, after_cloud_folder, after_created_folder_identity, after_move_check,
    after_move_request, begin_cloud_delete, check_move_source, check_move_target, cloud_only_record, plan_cloud_move,
    plan_create_folder, plan_placeholder, CreatedFolder, FolderPlan, MoveOutcome,
};
use petal_sync::backup_flow::{backup_step, begin_backup, BackupCommand, BackupEvent, BackupLeftover, BackupStage};
use petal_sync::conflict::ConflictSide;
use petal_sync::conflict_flow::{begin_conflict, conflict_step, ConflictCommand, ConflictEvent, ConflictStage, Leftover};
use petal_sync::content_checks::{LocalDestinationSnapshot, LocalEntryKind};
use petal_sync::local_delete_flow::{begin_local_delete, local_delete_step, DeleteCommand, DeleteEvent, DeleteStage};
use petal_sync::model::{DriveFile, FileCategory, SyncAction, SyncActionType, SyncItem, CLOUD_ONLY, SYNCED};
use petal_sync::settlement::ActionResult;

fn cloud(id: &str, name: &str, parent: &str, folder: bool) -> DriveFile {
    DriveFile {
        id: id.to_string(),
        name: name.to_string(),
        category: if folder { FileCategory::Folder } else { FileCategory::Document },
        size: 42,
        parent_folder: Some(vec![parent.to_string()]),
        description: None,
        created_time: None,
        edited_time: Some(7_000),
        mime_type: None,
        content_hash: Some("abc".into()),
        thumbnail_link: None,
    }
}

fn action(action_type: SyncActionType, path: &str) -> SyncAction {
    SyncAction {
        action_type,
        relative_path: Some(path.to_string()),
        file_id: Some("fid".into()),
        parent_file_id: Some("parent".into()),
        local_path: Some(format!("/mount/{path}")),
        cloud_file: Some(cloud("fid", "a.txt", "parent", false)),
        reason: None,
    }
}

fn failed_message(r: &ActionResult) -> &str {
    assert!(!r.success);
    r.error_message.as_deref().unwrap()
}

const SNAP: LocalDestinationSnapshot = LocalDestinationSnapshot { mtime_ms: 9_000, size: 5 };

// ----- conflicts -----

fn conflict_run(side: ConflictSide, events: Vec<ConflictEvent>) -> Vec<ConflictCommand> {
    let case = begin_conflict(&action(SyncActionType::CreateConflictCopy, "a.txt")).unwrap();
    let mut stage = ConflictStage::Inspecting;
    let mut commands = Vec::new();
    let mut all = vec![ConflictEvent::Inspected(SNAP), ConflictEvent::Winner(side)];
    all.extend(events);
    for event in all {
        let (next, cmd) = conflict_step(&case, stage, event);
        stage = next;
        commands.push(cmd);
    }
    commands
}

#[test]
fn cloud_win_copies_local_before_replacing_it() {
    let cmds = conflict_run(
        ConflictSide::Cloud,
        vec![ConflictEvent::Done, ConflictEvent::Done, ConflictEvent::Done, ConflictEvent::Done, ConflictEvent::Done, ConflictEvent::Done],
    );
    assert!(matches!(cmds[0], ConflictCommand::Resolve { local_mtime_ms: 9_000 }));
    assert!(matches!(cmds[1], ConflictCommand::AllocateStaging));
    assert!(matches!(cmds[2], ConflictCommand::CopyMainToStaging { expected } if expected == SNAP));
    assert!(matches!(cmds[3], ConflictCommand::ClearStagingIdentity));
    match &cmds[4] {
        ConflictCommand::PublishCopy { label, stamp_ms } => {
            assert_eq!(label, "本地副本");
            assert_eq!(*stamp_ms, 9_000);
        }
        other => panic!("unexpected {:?}", other),
    }
    match &cmds[5] {
        ConflictCommand::DownloadCloudToMain { expectation } => {
            assert_eq!(expectation.destination_snapshot, Some(SNAP));
            assert_eq!(expectation.placeholder_file_id, None);
            assert_eq!(expectation.size, Some(42));
            assert_eq!(expectation.edited_time_ms, Some(7_000));
        }
        other => panic!("unexpected {:?}", other),
    }
    assert!(matches!(&cmds[6], ConflictCommand::RestoreMainIdentity { file_id } if file_id == "fid"));
    assert!(matches!(&cmds[7], ConflictCommand::Finish(r) if r.success && r.cloud_file.is_none()));
}

#[test]
fn local_win_uploads_only_after_the_cloud_copy_is_published() {
    let cmds = conflict_run(
        ConflictSide::Local,
        vec![
            ConflictEvent::Done,
            ConflictEvent::Done,
            ConflictEvent::Done,
            ConflictEvent::Done,
            ConflictEvent::Uploaded(cloud("fid", "a.txt", "parent", false)),
        ],
    );
    match &cmds[2] {
        ConflictCommand::DownloadCloudToStaging { expectation } => {
            assert_eq!(expectation.placeholder_file_id.as_deref(), Some("fid"));
            assert_eq!(expectation.destination_snapshot, None);
        }
        other => panic!("unexpected {:?}", other),
    }
    assert!(matches!(&cmds[4], ConflictCommand::PublishCopy { label, stamp_ms: 7_000 } if label == "云端副本"));
    assert!(matches!(&cmds[5], ConflictCommand::UploadMain { file_id, parent_id } if file_id == "fid" && parent_id.as_deref() == Some("parent")));
    assert!(matches!(&cmds[6], ConflictCommand::Finish(r) if r.success && r.cloud_file.is_some()));
}

#[test]
fn failed_upload_removes_the_redundant_copy() {
    let cmds = conflict_run(
        ConflictSide::Local,
        vec![
            ConflictEvent::Done,
            ConflictEvent::Done,
            ConflictEvent::Done,
            ConflictEvent::Done,
            ConflictEvent::Failed("网络中断".into()),
            ConflictEvent::Failed("权限不足".into()),
        ],
    );
    assert!(matches!(cmds[6], ConflictCommand::RemoveLeftover { what: Leftover::Copy }));
    match &cmds[7] {
        ConflictCommand::Finish(r) => assert_eq!(failed_message(r), "网络中断；权限不足"),
        other => panic!("unexpected {:?}", other),
    }
}

#[test]
fn failed_cloud_copy_download_removes_staging_and_keeps_cloud() {
    let cmds = conflict_run(ConflictSide::Local, vec![ConflictEvent::Done, ConflictEvent::Failed("超时".into()), ConflictEvent::Done]);
    assert!(matches!(cmds[3], ConflictCommand::RemoveStaging { missing_ok: true }));
    match &cmds[4] {
        ConflictCommand::Finish(r) => assert_eq!(failed_message(r), "冲突副本（云端旧版）下载失败，跳过覆盖以保云端旧版：超时"),
        other => panic!("unexpected {:?}", other),
    }
}

#[test]
fn conflict_needs_path_and_cloud_file() {
    let mut a = action(SyncActionType::CreateConflictCopy, "a.txt");
    a.local_path = None;
    assert_eq!(failed_message(&begin_conflict(&a).unwrap_err()), "冲突处理缺少本地路径");
    let mut b = action(SyncActionType::CreateConflictCopy, "a.txt");
    b.cloud_file = None;
    assert_eq!(failed_message(&begin_conflict(&b).unwrap_err()), "冲突处理缺少云端文件元数据");
}

// ----- backups before a cloud deletion -----

fn backup_run(events: Vec<BackupEvent>) -> Vec<BackupCommand> {
    let (mut stage, _) = begin_backup(&action(SyncActionType::BackupBeforeCloudDelete, "a.txt"));
    let mut out = Vec::new();
    for e in events {
        let (next, cmd) = backup_step(stage, e);
        stage = next;
        out.push(cmd);
    }
    out
}

#[test]
fn backup_removes_main_only_after_unchanged_recheck() {
    let cmds = backup_run(vec![
        BackupEvent::Done,
        BackupEvent::Inspected(SNAP),
        BackupEvent::Done,
        BackupEvent::Done,
        BackupEvent::Done,
        BackupEvent::Done,
        BackupEvent::Inspected(SNAP),
        BackupEvent::Done,
    ]);
    assert!(matches!(cmds[4], BackupCommand::PublishCopy { stamp_ms: 9_000 }));
    assert!(matches!(cmds[6], BackupCommand::RemoveMain));
    assert!(matches!(&cmds[7], BackupCommand::Finish(r) if r.success));
}

#[test]
fn backup_keeps_main_when_it_changed_during_copy() {
    let changed = LocalDestinationSnapshot { mtime_ms: 9_001, size: 5 };
    let cmds = backup_run(vec![
        BackupEvent::Done,
        BackupEvent::Inspected(SNAP),
        BackupEvent::Done,
        BackupEvent::Done,
        BackupEvent::Done,
        BackupEvent::Done,
        BackupEvent::Inspected(changed),
        BackupEvent::Done,
    ]);
    assert!(matches!(cmds[6], BackupCommand::RemoveLeftover { what: BackupLeftover::Copy }));
    match &cmds[7] {
        BackupCommand::Finish(r) => assert_eq!(failed_message(r), "生成副本期间本地源文件已变化；已移除冗余副本，原文件保持不变"),
        other => panic!("unexpected {:?}", other),
    }
}

#[test]
fn backup_of_missing_file_succeeds_and_cleanup_errors_are_reported() {
    let cmds = backup_run(vec![BackupEvent::Absent]);
    assert!(matches!(&cmds[0], BackupCommand::Finish(r) if r.success));
    let mut no_path = action(SyncActionType::BackupBeforeCloudDelete, "a.txt");
    no_path.local_path = None;
    assert!(matches!(begin_backup(&no_path), (BackupStage::Finished, BackupCommand::Finish(ref r)) if r.success));

    let cmds = backup_run(vec![
        BackupEvent::Done,
        BackupEvent::Inspected(SNAP),
        BackupEvent::Done,
        BackupEvent::Done,
        BackupEvent::Failed("xattr".into()),
        BackupEvent::Failed("busy".into()),
    ]);
    match &cmds[5] {
        BackupCommand::Finish(r) => assert_eq!(failed_message(r), "删除冲突副本身份清理失败：xattr；busy"),
        other => panic!("unexpected {:?}", other),
    }
}

// ----- local deletions -----

fn baseline(path: &str) -> SyncItem {
    SyncItem {
        file_id: "x".into(),
        local_path: path.into(),
        parent_folder_id: None,
        name: path.into(),
        is_folder: false,
        size: 1,
        local_size: Some(1),
        sha256: None,
        local_mtime: Some(1),
        cloud_edited_time: None,
        last_sync_time: None,
        status: SYNCED,
        error_message: None,
    }
}

fn delete_run(a: &SyncAction, events: Vec<DeleteEvent>) -> Vec<DeleteCommand> {
    let (mut stage, _) = begin_local_delete(a);
    let mut out = Vec::new();
    for e in events {
        let (next, cmd) = local_delete_step(a, stage, e);
        stage = next;
        out.push(cmd);
    }
    out
}

#[test]
fn local_delete_waits_for_remote_proof_and_rechecks() {
    let a = action(SyncActionType::DeleteFromLocal, "a.txt");
    let cmds = delete_run(
        &a,
        vec![
            DeleteEvent::Baselines(vec![baseline("a.txt")]),
            DeleteEvent::Done,
            DeleteEvent::Done,
            DeleteEvent::RemoteDeleted(true),
            DeleteEvent::Done,
            DeleteEvent::Done,
            DeleteEvent::Done,
        ],
    );
    assert!(matches!(cmds[1], DeleteCommand::VerifySnapshot { allow_orphan_placeholder: false }));
    assert!(matches!(&cmds[2], DeleteCommand::ConfirmRemoteDeleted { file_id } if file_id == "fid"));
    assert!(matches!(cmds[3], DeleteCommand::ProbePath));
    assert!(matches!(cmds[5], DeleteCommand::DeleteLocal));
    assert!(matches!(&cmds[6], DeleteCommand::Finish(r) if r.success));
}

#[test]
fn local_delete_refusals_are_deferred() {
    let a = action(SyncActionType::DeleteFromLocal, "a.txt");
    let cmds = delete_run(&a, vec![DeleteEvent::Baselines(vec![baseline("a.txt"), baseline("a.txt")])]);
    match &cmds[0] {
        DeleteCommand::Finish(r) => {
            assert!(r.deferred);
            assert_eq!(failed_message(r), "同步基线存在重复路径，拒绝删除：a.txt");
        }
        other => panic!("unexpected {:?}", other),
    }
    let cmds = delete_run(&a, vec![DeleteEvent::Baselines(vec![]), DeleteEvent::Absent, DeleteEvent::RemoteDeleted(false)]);
    assert!(matches!(&cmds[2], DeleteCommand::Finish(r) if r.deferred && r.error_message.as_deref() == Some("云端文件仍存在，取消本地删除并等待重新规划")));

    let mut pending = action(SyncActionType::DeleteFromLocal, "a.txt");
    pending.file_id = Some("pending:a.txt".into());
    let cmds = delete_run(&pending, vec![DeleteEvent::Baselines(vec![]), DeleteEvent::Absent]);
    assert!(matches!(&cmds[1], DeleteCommand::Finish(r) if r.error_message.as_deref() == Some("待上传记录没有可核验的远端删除事实")));

    let cmds = delete_run(&a, vec![DeleteEvent::Unavailable("同步数据库未初始化，拒绝删除本地内容".into())]);
    assert!(matches!(&cmds[0], DeleteCommand::Finish(r) if !r.deferred && !r.success));
}

#[test]
fn orphan_cleanup_without_file_id_still_rechecks() {
    let mut a = action(SyncActionType::DeleteFromLocal, "a.txt");
    a.file_id = None;
    let cmds = delete_run(&a, vec![DeleteEvent::Baselines(vec![]), DeleteEvent::Done, DeleteEvent::Done, DeleteEvent::Done, DeleteEvent::Failed("变了".into())]);
    assert!(matches!(cmds[1], DeleteCommand::VerifySnapshot { allow_orphan_placeholder: true }));
    assert!(matches!(cmds[2], DeleteCommand::ProbePath));
    assert!(matches!(&cmds[4], DeleteCommand::Finish(r) if r.error_message.as_deref() == Some("远端核验期间本地内容发生变化，已取消删除：变了")));
}

// ----- cloud moves, deletions, folders, placeholders -----

#[test]
fn cloud_move_checks_identity_and_target() {
    let a = action(SyncActionType::MoveInCloud, "dir/b.txt");
    let plan = plan_cloud_move(&a).unwrap();
    assert_eq!(plan.target_name, "b.txt");
    assert!(check_move_source(&plan, Some(LocalEntryKind::File { placeholder: false }), Some("fid")).is_ok());
    let moved = check_move_source(&plan, Some(LocalEntryKind::Directory), Some("fid")).unwrap_err();
    assert_eq!(failed_message(&moved), "云端路径变更执行前本地路径或 fileId 已变化，等待重新规划");
    assert!(moved.deferred);
    let taken = check_move_target(&plan, Ok(vec![cloud("other", "b.txt", "parent", false)])).unwrap_err();
    assert_eq!(failed_message(&taken), "目标目录已存在同名云端文件 b.txt，拒绝覆盖并等待重新规划");
    assert!(check_move_target(&plan, Ok(vec![cloud("fid", "b.txt", "parent", false)])).is_ok());

    let mut missing = action(SyncActionType::MoveInCloud, "dir/b.txt");
    missing.parent_file_id = None;
    assert_eq!(failed_message(&plan_cloud_move(&missing).unwrap_err()), "云端路径变更的目标父目录尚未取得 fileId，等待重新规划");
}

#[test]
fn uncertain_cloud_move_is_settled_by_id() {
    let a = action(SyncActionType::MoveInCloud, "dir/b.txt");
    let plan = plan_cloud_move(&a).unwrap();
    let error = match after_move_request(&plan, Err("timeout".into())) {
        MoveOutcome::CheckById(e) => e,
        other => panic!("unexpected {:?}", other),
    };
    let done = after_move_check(&plan, &error, Ok(cloud("fid", "b.txt", "parent", false)));
    assert!(done.success);
    let not_yet = after_move_check(&plan, &error, Ok(cloud("fid", "a.txt", "parent", false)));
    assert_eq!(failed_message(&not_yet), "远端路径变更尚未生效，保留原基线等待重新规划：timeout");
    let unknown = after_move_check(&plan, &error, Err("503".into()));
    assert_eq!(failed_message(&unknown), "远端路径变更结果不确定，保留原基线等待重新规划：timeout；核验失败：503");
    match after_move_request(&plan, Ok(cloud("fid", "b.txt", "parent", true))) {
        MoveOutcome::Settled(r) => assert!(r.deferred && !r.success),
        other => panic!("unexpected {:?}", other),
    }
}

#[test]
fn cloud_delete_confirms_uncertain_responses() {
    let a = action(SyncActionType::DeleteFromCloud, "a.txt");
    assert_eq!(begin_cloud_delete(&a).unwrap(), "fid");
    assert!(after_cloud_delete(Ok(())).unwrap().success);
    assert!(after_cloud_delete(Err("x".into())).is_none());
    assert!(after_cloud_delete_check("x", Ok(true)).success);
    let still = after_cloud_delete_check("x", Ok(false));
    assert_eq!(failed_message(&still), "x；远端核验显示文件仍未回收");
    assert!(!still.deferred);
    let unknown = after_cloud_delete_check("x", Err("y".into()));
    assert_eq!(failed_message(&unknown), "x；删除结果核验失败：y");
    assert!(unknown.deferred);
}

#[test]
fn folders_are_created_by_their_last_segment() {
    let mut a = action(SyncActionType::CreateFolder, "学习/程序设计");
    a.cloud_file = None;
    match plan_create_folder(&a, true) {
        FolderPlan::CreateInCloud { name, parent_id } => {
            assert_eq!(name, "程序设计");
            assert_eq!(parent_id.as_deref(), Some("parent"));
        }
        other => panic!("unexpected {:?}", other),
    }
    let file_action = action(SyncActionType::CreateFolder, "docs");
    match plan_create_folder(&file_action, true) {
        FolderPlan::Settled(r) => assert_eq!(failed_message(&r), "创建本地目录动作携带的云端资源不是文件夹"),
        other => panic!("unexpected {:?}", other),
    }
    let created = match after_cloud_folder(Ok(cloud("new", "程序设计", "parent", true)), true) {
        CreatedFolder::MarkLocal(f) => f,
        other => panic!("unexpected {:?}", other),
    };
    let r = after_created_folder_identity(created, Err("occupied".into()));
    assert!(r.deferred && r.cloud_file.is_some());
}

#[test]
fn placeholders_record_cloud_only_baselines() {
    let a = action(SyncActionType::CreatePlaceholder, "a.txt");
    let plan = plan_placeholder(&a, true).unwrap();
    assert_eq!(plan.file_id, "fid");
    assert_eq!(plan.size, 42);
    assert_eq!(failed_message(&plan_placeholder(&a, false).unwrap_err()), "mount manager 未初始化");
    let rec = cloud_only_record(a.cloud_file.as_ref().unwrap(), "a.txt");
    assert_eq!(rec.status, CLOUD_ONLY);
    assert_eq!(rec.parent_folder_id.as_deref(), Some("parent"));
    assert_eq!(rec.cloud_edited_time, Some(7_000));
    assert!(rec.local_size.is_none() && !rec.is_folder);
}

// ----- transfer tasks -----

use petal_sync::hydration::TaskDisposition;
use petal_sync::transfer::{TransferOperation, TransferTask};
use petal_sync::transfer_exec::{
    after_upload, after_upload_refetch, begin_preflight, begin_run, check_create_target, check_update_target,
    download_expectation, preflight_after_source, stability_step, transfer_action_result, upload_route, PreflightNext,
    PreflightStart, RunKind, RunOutcome, SourceStat, Stability, StabilityNext, UploadRoute, UploadSettles,
};

fn transfer(op: TransferOperation) -> TransferTask {
    TransferTask {
        id: 3,
        direction: 0,
        file_id: Some("fid".into()),
        local_path: Some("/mount/a.txt".into()),
        name: "a.txt".into(),
        total_size: 10,
        transferred: 0,
        state: 0,
        error_message: None,
        created_at: 1_000,
        finished_at: None,
        server_id: Some("srv".into()),
        upload_id: None,
        resume_offset: 4,
        session_url: None,
        relative_path: Some("a.txt".into()),
        parent_file_id: Some("parent".into()),
        operation: Some(op.code()),
        source_mtime: Some(100),
        source_size: Some(10),
        expected_cloud_edited_time: Some(7_000),
        attempt_count: 0,
        verify_attempt_count: 0,
        next_retry_at: None,
        error_kind: None,
        remote_result_file_id: None,
        state_revision: 0,
    }
}

#[test]
fn preflight_checks_uploads_only() {
    assert!(matches!(begin_preflight(&transfer(TransferOperation::Download)), PreflightStart::Proceed));
    assert!(matches!(begin_preflight(&transfer(TransferOperation::Create)), PreflightStart::ReadSource(ref p) if p == "/mount/a.txt"));
    let mut bad = transfer(TransferOperation::Create);
    bad.operation = Some(99);
    assert!(matches!(begin_preflight(&bad), PreflightStart::RestartRequired(ref m) if m == "未知的传输操作编码"));

    let same = SourceStat { is_file: true, mtime_ms: Some(100), len: 10 };
    assert!(matches!(preflight_after_source(&transfer(TransferOperation::Create), Ok(same), false), PreflightNext::Proceed));
    assert!(matches!(preflight_after_source(&transfer(TransferOperation::Create), Ok(same), true), PreflightNext::CheckStability));
    let changed = SourceStat { is_file: true, mtime_ms: Some(101), len: 10 };
    assert!(matches!(preflight_after_source(&transfer(TransferOperation::Create), Ok(changed), false),
        PreflightNext::RestartRequired(ref m) if m == "本地上传源在执行前发生变化"));
    assert!(matches!(preflight_after_source(&transfer(TransferOperation::Create), Err("denied".into()), false),
        PreflightNext::RestartRequired(ref m) if m == "读取上传源失败：denied"));

    let mut big = transfer(TransferOperation::Update);
    big.total_size = 30 * 1024 * 1024;
    big.source_size = Some(big.total_size);
    let big_stat = SourceStat { is_file: true, mtime_ms: Some(100), len: big.total_size as u64 };
    assert!(matches!(preflight_after_source(&big, Ok(big_stat), false),
        PreflightNext::RestartRequired(ref m) if m.starts_with("现有云端文件超过 20 MiB")));
}

#[test]
fn unstable_sources_are_checked_four_times() {
    assert_eq!(stability_step(0, Stability::Unstable), StabilityNext::WaitAndRecheck(2));
    assert_eq!(stability_step(1, Stability::Unstable), StabilityNext::WaitAndRecheck(3));
    assert_eq!(stability_step(2, Stability::Unstable), StabilityNext::WaitAndRecheck(5));
    assert_eq!(stability_step(3, Stability::Unstable), StabilityNext::RestartRequired("文件尚不稳定，等待重新规划".into()));
    assert_eq!(stability_step(1, Stability::Stable), StabilityNext::Proceed);
    assert_eq!(stability_step(0, Stability::Editing), StabilityNext::RestartRequired("用户正在编辑，等待重新规划".into()));
}

#[test]
fn uploads_refuse_stale_targets_and_pick_their_route() {
    let update = transfer(TransferOperation::Update);
    assert!(check_update_target(&update, &cloud("fid", "a.txt", "parent", false)).is_ok());
    let mut newer = cloud("fid", "a.txt", "parent", false);
    newer.edited_time = Some(8_000);
    let f = check_update_target(&update, &newer).unwrap_err();
    assert!(f.restart_required);
    assert_eq!(f.message, "远端文件已在规划后变化，拒绝用旧任务覆盖");

    let create = transfer(TransferOperation::Create);
    assert!(check_create_target(&create, &vec![cloud("x", "a.txt", "parent", false)]).is_err());
    assert!(check_create_target(&create, &vec![cloud("x", "b.txt", "parent", false)]).is_ok());

    assert!(matches!(upload_route(&update, true), UploadRoute::Update { ref file_id } if file_id == "fid"));
    assert!(matches!(upload_route(&create, false), UploadRoute::Fresh));
    let mut resumable = transfer(TransferOperation::Create);
    resumable.session_url = Some("https://upload/session".into());
    match upload_route(&resumable, false) {
        UploadRoute::Resume(s) => {
            assert_eq!(s.server_id, "srv");
            assert_eq!(s.upload_id, "");
            assert_eq!(s.start_offset, 4);
            assert_eq!(s.chunk_size, 0);
        }
        other => panic!("unexpected {:?}", other),
    }
    resumable.session_url = Some("   ".into());
    assert!(matches!(upload_route(&resumable, false), UploadRoute::Fresh));
    assert!(matches!(begin_run(&create), Ok(RunKind::Upload { update: false, .. })));
    let mut delete = transfer(TransferOperation::Delete);
    delete.operation = Some(TransferOperation::Delete.code());
    assert_eq!(begin_run(&delete).unwrap_err().message, "该 operation 不支持传输执行");
}

#[test]
fn upload_answers_without_edit_time_are_fetched_again() {
    let mut partial = cloud("new", "a.txt", "parent", false);
    partial.edited_time = None;
    let partial = match after_upload(partial) {
        UploadSettles::Refetch(f) => f,
        other => panic!("unexpected {:?}", other),
    };
    let done = after_upload_refetch(partial.duplicate(), Ok(cloud("new", "a.txt", "parent", false)));
    assert_eq!(done.disposition, TaskDisposition::Completed);
    let unknown = after_upload_refetch(partial, Err("offline".into()));
    assert_eq!(unknown.disposition, TaskDisposition::VerifyingRemote);
    assert_eq!(unknown.cloud_file.unwrap().id, "new");

    let r = transfer_action_result(Ok(RunOutcome { cloud_file: None, disposition: TaskDisposition::WaitingForNetwork }), "等待网络".into());
    assert!(r.deferred && !r.success);
}

#[test]
fn downloads_expect_their_planned_version() {
    let mut update = transfer(TransferOperation::DownloadUpdate);
    let e = download_expectation(&update, true).unwrap();
    assert_eq!(e.destination_snapshot, Some(LocalDestinationSnapshot { mtime_ms: 100, size: 10 }));
    assert_eq!(e.placeholder_file_id, None);
    update.source_size = None;
    assert_eq!(download_expectation(&update, true).unwrap_err().message, "更新下载缺少本地目标大小快照");
    let first = download_expectation(&transfer(TransferOperation::Download), false).unwrap();
    assert_eq!(first.placeholder_file_id.as_deref(), Some("fid"));
    assert_eq!(first.edited_time_ms, Some(7_000));
    assert_eq!(first.size, Some(10));
}

// ----- dispatch and names -----

use petal_sync::action_flows::{route_action, stopped_result, ActionRoute};
use petal_sync::conflict_flow::{publish_probe_step, staging_probe_step, NameProbe, ProbeNext};
use petal_sync::scheduling::may_begin_folder_sync;

#[test]
fn actions_route_to_their_flows_and_skips_succeed() {
    assert!(matches!(route_action(&action(SyncActionType::Upload, "a.txt")), ActionRoute::Transfer));
    assert!(matches!(route_action(&action(SyncActionType::CreateConflictCopy, "a.txt")), ActionRoute::Conflict));
    let mut skip = action(SyncActionType::Skip, "a.txt");
    skip.reason = Some("跳过原因".into());
    match route_action(&skip) {
        ActionRoute::Settled(r) => {
            assert!(r.success);
            assert_eq!(r.error_message.as_deref(), Some("跳过原因"));
        }
        other => panic!("unexpected {:?}", other),
    }
    let stopped = stopped_result("同步引擎已停止".into());
    assert!(stopped.deferred && !stopped.success);
    assert!(may_begin_folder_sync(false, false, false));
    assert!(!may_begin_folder_sync(false, true, false));
}

#[test]
fn copy_names_are_tried_thirty_two_times() {
    assert_eq!(staging_probe_step(0, NameProbe::Free), ProbeNext::Use);
    assert_eq!(staging_probe_step(30, NameProbe::Taken), ProbeNext::TryAnother);
    assert_eq!(staging_probe_step(31, NameProbe::Taken), ProbeNext::GiveUp("无法分配冲突下载暂存路径".into()));
    assert_eq!(publish_probe_step(31, NameProbe::Taken), ProbeNext::GiveUp("冲突副本路径持续被占用，请稍后重试".into()));
    assert_eq!(publish_probe_step(3, NameProbe::Failed("EACCES".into())), ProbeNext::GiveUp("原子创建冲突副本失败：EACCES".into()));
}
