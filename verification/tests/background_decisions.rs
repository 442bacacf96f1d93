use petal_sync::cycle_policy::{admit_cycle, ensure_cycle_active, queued_request_result};
use petal_sync::changes::{Change, ChangeKind};
use petal_sync::checkpoints::{commit_recovered, incremental_cursor, purge_if_trusted, replay_changes};
use petal_sync::cloud_scan::{CloudScan, ScanNode};
use petal_sync::content_checks::LocalEntryKind;
use petal_sync::coordination::CycleRequest;
use petal_sync::error::AppError;
use petal_sync::hydration::{DestinationSnapshot, FuseErrno, TaskDisposition};
use petal_sync::hydration_flow::{
    after_refused_retry, blocked_hydration, check_moved_target, destination_snapshot, live_or_baseline,
    parent_chain_step, read_after_request, read_after_settling, watch_task, BlockedHydration, MovedTargetProbe,
    ParentStep, ReadFailure, ReadNext, TargetStat, Watch,
};
use petal_sync::model::{DriveFile, FileCategory, SyncActionType};
use petal_sync::path_map::PathMap;
use petal_sync::execution_order::{remaining_positions, results_in_order, unsettled_folder};
use petal_sync::scheduling::{
    adopt_waiting_baseline, fallback_waiting_baseline, waiting_edge,
    after_drain, backoff_next, drain_step, may_drain_again, needs_replan, still_due, AfterDrain, BackoffNext, DrainStep,
};
use petal_sync::settlement::{ActionResult, RecoveredCloudFile};
use petal_sync::transfer::{TransferOperation, TransferState, TransferTask};

fn file(id: &str, name: &str, parent: &str, folder: bool) -> DriveFile {
    DriveFile {
        id: id.to_string(),
        name: name.to_string(),
        category: if folder { FileCategory::Folder } else { FileCategory::Document },
        size: 3,
        parent_folder: Some(vec![parent.to_string()]),
        description: None,
        created_time: None,
        edited_time: Some(1),
        mime_type: None,
        content_hash: None,
        thumbnail_link: None,
    }
}

fn message(e: &AppError) -> String {
    e.message()
}

// ----- the cloud scan -----

#[test]
fn scan_places_entries_and_queues_folders_once() {
    let mut scan = CloudScan::start();
    let batch = scan.take_batch(4);
    assert_eq!(batch.len(), 1);
    let root = &batch[0];
    let listing = vec![
        file("docs", "docs", "root-id", true),
        file("a", "a.txt", "root-id", false),
        file("junk", ".hwcloud_tmp", "root-id", false),
    ];
    scan.absorb_listing(root, &listing).unwrap();
    assert_eq!(scan.root_folder_id.as_deref(), Some("root-id"));
    assert_eq!(scan.tree.len(), 2);
    assert!(scan.tree.get(".hwcloud_tmp").is_none());
    assert_eq!(scan.queue.len(), 1);
    let docs = scan.take_batch(4).remove(0);
    assert_eq!(docs.path, "docs");
    scan.absorb_listing(&docs, &vec![file("docs", "self-loop", "docs", true), file("b", "b.txt", "docs", false)]).unwrap();
    assert_eq!(scan.path_to_id.get("docs/b.txt").map(|s| s.as_str()), Some("b"));
    // The folder was seen already, so it is not queued a second time.
    assert_eq!(scan.queue.len(), 0);
}

#[test]
fn scan_retries_a_folder_twice_then_fails() {
    let mut scan = CloudScan::start();
    let node = scan.take_batch(1).remove(0);
    scan.absorb_failure(node, "503").unwrap();
    let node = scan.take_batch(1).remove(0);
    assert_eq!(node.retries, 1);
    scan.absorb_failure(node, "503").unwrap();
    let node = scan.take_batch(1).remove(0);
    assert_eq!(node.retries, 2);
    let e = scan.absorb_failure(node, "503").unwrap_err();
    assert_eq!(message(&e), "云端树刷新不完整：目录 / 重试耗尽：503");
    let deep = ScanNode { folder_id: Some("x".into()), path: "a/b".into(), retries: 2 };
    assert_eq!(message(&scan.absorb_failure(deep, "boom").unwrap_err()), "云端树刷新不完整：目录 a/b 重试耗尽：boom");
}

#[test]
fn scan_refuses_unsafe_names() {
    let mut scan = CloudScan::start();
    let root = scan.take_batch(1).remove(0);
    let e = scan.absorb_listing(&root, &vec![file("x", "..", "root-id", false)]).unwrap_err();
    assert_eq!(message(&e), "非法路径段：..");
}

// ----- checkpoints -----

#[test]
fn incremental_refresh_needs_a_cursor_and_a_short_run() {
    assert_eq!(incremental_cursor(Some("c1"), 0).as_deref(), Some("c1"));
    assert_eq!(incremental_cursor(Some("  "), 0), None);
    assert_eq!(incremental_cursor(None, 0), None);
    assert_eq!(incremental_cursor(Some("c1"), 300), None);
    assert_eq!(incremental_cursor(Some("c1"), 299).as_deref(), Some("c1"));
}

#[test]
fn replay_sets_the_root_entry_aside() {
    let mut tree = PathMap::new();
    tree.insert("a.txt".to_string(), file("a", "a.txt", "root", false));
    let mut ids = PathMap::new();
    ids.insert(String::new(), "root".to_string());
    ids.insert("a.txt".to_string(), "a".to_string());
    let changes = vec![Change { kind: ChangeKind::Modified, file_id: "b".into(), file: Some(file("b", "b.txt", "root", false)) }];
    replay_changes(&mut tree, &mut ids, Some("root"), &changes).unwrap();
    assert_eq!(ids.get("b.txt").map(|s| s.as_str()), Some("b"));
    assert!(ids.get("").is_none());

    let mut tree = PathMap::new();
    tree.insert("a.txt".to_string(), file("a", "a.txt", "root", false));
    let mut bad = PathMap::new();
    bad.insert("other.txt".to_string(), "a".to_string());
    let e = replay_changes(&mut tree, &mut bad, Some("root"), &vec![]).unwrap_err();
    assert_eq!(message(&e), "云端候选树与路径索引不一致，拒绝重放 Changes");
}

#[test]
fn recovered_results_need_a_trusted_checkpoint_with_cursor() {
    let recovered = vec![RecoveredCloudFile { relative_path: "new.txt".into(), file: file("a", "new.txt", "root", false) }];
    let mut tree = PathMap::new();
    tree.insert("old.txt".to_string(), file("a", "old.txt", "root", false));
    let mut ids = PathMap::new();
    ids.insert("old.txt".to_string(), "a".to_string());
    let c = commit_recovered(tree, ids, Some("root".into()), Some("cur".into()), true, &recovered).unwrap().unwrap();
    assert!(c.tree.get("old.txt").is_none());
    assert_eq!(c.tree.get("new.txt").unwrap().id, "a");
    assert_eq!(c.path_to_id.get("").map(|s| s.as_str()), Some("root"));

    let e = commit_recovered(PathMap::new(), PathMap::new(), None, Some("cur".into()), false, &recovered).unwrap_err();
    assert_eq!(message(&e), "云端检查点不可信，拒绝发布恢复任务结果");
    let e = commit_recovered(PathMap::new(), PathMap::new(), None, Some(" ".into()), true, &recovered).unwrap_err();
    assert_eq!(message(&e), "可信云端检查点缺少 cursor");
    assert!(commit_recovered(PathMap::new(), PathMap::new(), None, None, false, &vec![]).unwrap().is_none());
    let e = purge_if_trusted(false, &vec![], &PathMap::new(), &vec![]).unwrap_err();
    assert_eq!(message(&e), "云端树尚未 catch-up，拒绝清理墓碑");
}

// ----- hydration -----

fn task(state: TransferState) -> TransferTask {
    TransferTask {
        id: 9,
        direction: 1,
        file_id: Some("fid".into()),
        local_path: Some("/m/a.txt".into()),
        name: "a.txt".into(),
        total_size: 3,
        transferred: 0,
        state: state.code(),
        error_message: None,
        created_at: 0,
        finished_at: None,
        server_id: None,
        upload_id: None,
        resume_offset: 0,
        session_url: None,
        relative_path: Some("a.txt".into()),
        parent_file_id: Some("root".into()),
        operation: Some(TransferOperation::Download.code()),
        source_mtime: None,
        source_size: None,
        expected_cloud_edited_time: Some(1),
        attempt_count: 0,
        verify_attempt_count: 0,
        next_retry_at: None,
        error_kind: None,
        remote_result_file_id: None,
        state_revision: 0,
    }
}

#[test]
fn download_targets_are_snapshotted_unless_placeholders() {
    let placeholder = TargetStat { kind: LocalEntryKind::File { placeholder: true }, len: 0, mtime_ms: Some(5) };
    assert_eq!(destination_snapshot(Ok(Some(placeholder))).unwrap(), None);
    let content = TargetStat { kind: LocalEntryKind::File { placeholder: false }, len: 9, mtime_ms: Some(5) };
    assert_eq!(destination_snapshot(Ok(Some(content))).unwrap(), Some(DestinationSnapshot { mtime: 5, size: 9 }));
    let link = TargetStat { kind: LocalEntryKind::Symlink, len: 9, mtime_ms: Some(5) };
    assert_eq!(message(&destination_snapshot(Ok(Some(link))).unwrap_err()), "按需下载目标不是安全的普通文件");
    assert_eq!(destination_snapshot(Ok(None)).unwrap(), None);
    assert_eq!(message(&destination_snapshot(Err("EACCES".into())).unwrap_err()), "读取按需下载目标失败：EACCES");
    assert!(live_or_baseline(Err(AppError::generic("offline")), true).unwrap().is_none());
    assert!(live_or_baseline(Err(AppError::generic("offline")), false).is_err());
}

#[test]
fn moved_targets_must_prove_a_local_move() {
    let good = MovedTargetProbe {
        requested_parents: Ok(()),
        requested: Ok(LocalEntryKind::File { placeholder: true }),
        requested_owner: Ok(Some("fid".into())),
        recorded_parents: Ok(()),
        recorded: Ok(None),
        recorded_owner: Ok(None),
    };
    assert!(check_moved_target("fid", &good).is_ok());
    let copied = MovedTargetProbe { recorded: Ok(Some(LocalEntryKind::File { placeholder: false })), recorded_owner: Ok(Some("fid".into())), ..good };
    let e = check_moved_target("fid", &copied).unwrap_err();
    assert!(matches!(e, AppError::Config { .. }));
    assert_eq!(message(&e), "下载路径不一致，且新旧路径同时携带同一 fileId，拒绝把复制误判为移动：file_id=fid");
    let foreign = MovedTargetProbe {
        requested_parents: Ok(()),
        requested: Ok(LocalEntryKind::File { placeholder: true }),
        requested_owner: Ok(Some("other".into())),
        recorded_parents: Ok(()),
        recorded: Ok(None),
        recorded_owner: Ok(None),
    };
    assert_eq!(message(&check_moved_target("fid", &foreign).unwrap_err()), "下载路径不一致，且请求目标 fileId 不匹配：file_id=fid");
    assert!(matches!(parent_chain_step(Ok(LocalEntryKind::Directory), false, "/m/a"), ParentStep::Continue));
    assert!(matches!(parent_chain_step(Err(ReadFailure { not_found: true, message: "gone".into() }), true, "/m/a"), ParentStep::Safe));
    match parent_chain_step(Ok(LocalEntryKind::Symlink), true, "/m/a") {
        ParentStep::Refused(e) => assert_eq!(message(&e), "按需下载目标父目录不安全：/m/a"),
        other => panic!("unexpected {:?}", other),
    }
}

#[test]
fn blocked_hydrations_retry_only_the_same_download() {
    let requested = task(TransferState::Pending);
    assert_eq!(blocked_hydration(Some(&task(TransferState::Failed)), &requested).unwrap(), BlockedHydration::Retry);
    let mut upload = task(TransferState::Failed);
    upload.operation = Some(TransferOperation::Update.code());
    assert_eq!(
        message(&blocked_hydration(Some(&upload), &requested).unwrap_err()),
        "同一路径存在另一项失败的同步任务；拒绝因打开文件而重放非下载操作"
    );
    assert_eq!(
        blocked_hydration(Some(&task(TransferState::Running)), &requested).unwrap(),
        BlockedHydration::Observe(Some(TaskDisposition::Running))
    );
    assert_eq!(message(&blocked_hydration(None, &requested).unwrap_err()), "按需下载任务已不存在");
    let kept = after_refused_retry(Some(&task(TransferState::Running)), &requested, AppError::generic("refused")).unwrap();
    assert_eq!(kept, TaskDisposition::Running);
    let err = after_refused_retry(Some(&task(TransferState::Failed)), &requested, AppError::generic("refused")).unwrap_err();
    assert_eq!(message(&err), "refused");
}

#[test]
fn waiting_readers_follow_the_task() {
    assert!(matches!(watch_task(Some(&task(TransferState::Running)), false), Watch::Wait));
    assert!(matches!(watch_task(Some(&task(TransferState::Completed)), false), Watch::Settled(TaskDisposition::Completed)));
    let mut failed = task(TransferState::Failed);
    failed.error_message = Some("磁盘已满".into());
    assert!(matches!(watch_task(Some(&failed), false), Watch::Failed(ref e) if message(e) == "磁盘已满"));
    assert!(matches!(watch_task(Some(&task(TransferState::Canceled)), false), Watch::Failed(ref e) if message(e) == "按需下载任务未能完成"));
    assert!(matches!(watch_task(Some(&task(TransferState::Running)), true),
        Watch::Failed(ref e) if message(e) == "按需下载任务长时间没有进展，请检查网络后重新打开文件"));
}

#[test]
fn kernel_reads_end_with_content_or_an_errno() {
    assert_eq!(read_after_request(Ok(TaskDisposition::Completed), 0, true), ReadNext::Done);
    assert_eq!(read_after_request(Ok(TaskDisposition::Running), 0, false), ReadNext::AwaitTask);
    assert_eq!(read_after_request(Ok(TaskDisposition::WaitingForNetwork), 0, false), ReadNext::Fail(FuseErrno::HostUnreachable));
    assert_eq!(read_after_settling(Ok(TaskDisposition::Completed), 0, false), ReadNext::Again);
    assert_eq!(read_after_settling(Ok(TaskDisposition::RestartRequired), 7, false), ReadNext::Fail(FuseErrno::Io));
    assert_eq!(read_after_settling(Err(AppError::generic("x")), 3, false), ReadNext::Fail(FuseErrno::Io));
}

// ----- background loops -----

#[test]
fn drains_wait_for_network_except_at_startup() {
    let rescan = CycleRequest::local_rescan();
    assert_eq!(drain_step(CycleRequest(0), false, false, true), DrainStep::Finish);
    assert_eq!(drain_step(rescan, true, false, true), DrainStep::Finish);
    assert_eq!(drain_step(rescan, false, true, true), DrainStep::Restore);
    assert_eq!(drain_step(rescan, false, false, false), DrainStep::Restore);
    assert_eq!(drain_step(CycleRequest::startup().bitor(rescan), false, false, false), DrainStep::Run);
    assert_eq!(drain_step(rescan, false, false, true), DrainStep::Run);
}

#[test]
fn failed_drains_back_off_and_successes_reset() {
    assert_eq!(after_drain(true, true, true, 0), AfterDrain::RetryAfter { failures: 1, delay_secs: 1 });
    assert_eq!(after_drain(true, true, true, 3), AfterDrain::RetryAfter { failures: 4, delay_secs: 8 });
    assert_eq!(after_drain(true, true, true, u32::MAX), AfterDrain::RetryAfter { failures: u32::MAX, delay_secs: 32 });
    assert_eq!(after_drain(false, false, true, 5), AfterDrain::Settle { failures: 0 });
    assert_eq!(after_drain(true, false, true, 5), AfterDrain::Settle { failures: 5 });
    assert!(!may_drain_again(true, false, true, true, false, false, true));
    assert!(may_drain_again(true, true, true, true, false, false, true));
}

#[test]
fn backoff_deadlines_sleep_run_or_wait() {
    assert_eq!(backoff_next(None, 100, true), BackoffNext::AwaitChange);
    assert_eq!(backoff_next(Some(150), 100, true), BackoffNext::SleepMs(50));
    assert_eq!(backoff_next(Some(100), 100, true), BackoffNext::RunNow);
    assert_eq!(backoff_next(Some(90), 100, false), BackoffNext::AwaitChange);
    assert_eq!(backoff_next(Some(i64::MAX), i64::MIN, true), BackoffNext::SleepMs(i64::MAX as u64));
    assert!(still_due(Some(100), 100));
    assert!(!still_due(Some(101), 100));
    assert!(needs_replan(Some(&task(TransferState::RestartRequired))));
    assert!(!needs_replan(Some(&task(TransferState::Failed))));
    assert!(!needs_replan(None));
}

#[test]
fn ordered_results_fill_every_position() {
    assert_eq!(remaining_positions(5, &vec![3, 1]), vec![0, 2, 4]);
    let ok = ActionResult { success: true, error_message: None, deferred: false, cloud_file: None };
    let folder = unsettled_folder(
        ActionResult { success: true, error_message: None, deferred: false, cloud_file: Some(file("f", "d", "root", true)) },
        "db locked",
    );
    assert!(folder.deferred && folder.cloud_file.is_some());
    assert_eq!(folder.error_message.as_deref(), Some("云端目录已创建，但本地基线结算失败，等待重新收敛：db locked"));
    let out = results_in_order(vec![Some(ok), None, Some(folder)]);
    assert!(out[0].success);
    assert_eq!(out[1].error_message.as_deref(), Some("动作未执行"));
    assert!(out[2].deferred);
    let _ = SyncActionType::CreateFolder;
}

#[test]
fn waiting_for_network_edges_report_growth_on_newer_revisions() {
    assert_eq!(waiting_edge(None, 3, 2), (Some((3, 2)), false));
    assert_eq!(waiting_edge(Some((3, 2)), 4, 5), (Some((4, 5)), true));
    assert_eq!(waiting_edge(Some((3, 2)), 4, 1), (Some((4, 1)), false));
    assert_eq!(waiting_edge(Some((3, 2)), 3, 9), (Some((3, 2)), false));
    assert_eq!(fallback_waiting_baseline(7, Ok(false)), (7, 0));
    assert_eq!(fallback_waiting_baseline(7, Err("locked".into())), (7, u64::MAX));
    assert_eq!(adopt_waiting_baseline(Some((5, 1)), (4, 0)), Some((5, 1)));
    assert_eq!(adopt_waiting_baseline(Some((5, 1)), (6, 0)), Some((6, 0)));
}

#[test]
fn an_empty_drive_is_a_trusted_checkpoint() {
    use_empty_checkpoint(Some("root".into()));
    use_empty_checkpoint(None);
}

fn use_empty_checkpoint(root: Option<String>) {
    let c = petal_sync::cloud_tree::CloudTreeCache::new_trusted(root.clone(), PathMap::new(), PathMap::new(), "c0".into()).unwrap();
    assert_eq!(c.tree.len(), 0);
    assert_eq!(c.path_to_id.len(), if root.is_some() { 1 } else { 0 });
    assert!(c.validate_trusted().is_ok());
}

#[test]
fn cycles_wait_for_startup_and_report_queued_requests() {
    assert!(admit_cycle("startup-resume", false).is_ok());
    assert_eq!(message(&admit_cycle("manual-refresh", false).unwrap_err()), "同步引擎正在启动，请稍后重试");
    assert!(admit_cycle("manual-refresh", true).is_ok());
    assert_eq!(message(&queued_request_result(None).unwrap_err()), "同步请求已排队，等待恢复条件");
    assert!(queued_request_result(Some(Ok(()))).is_ok());
    assert_eq!(message(&ensure_cycle_active(true).unwrap_err()), "同步引擎已停止，拒绝开始新副作用");
    assert!(ensure_cycle_active(false).is_ok());
}
