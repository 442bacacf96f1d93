use petal_sync::coordination::{ActivityTracker, CycleCoordinator, CycleRequest};
use petal_sync::cycle_policy::{cloud_refresh_for, cycle_trigger, offline_outcome, untrusted_outcome, CloudRefresh, CycleTrigger};
use petal_sync::error::AppError;
use petal_sync::failed_records::{purge_candidates, review_failed, FailedRecordReconciliation, FailedVerdict};
use petal_sync::guards::{check_free_up, guard_cloud_delete, load_db_snapshot, FreeUpCheckResult, LocalMeta, LocalPresence};
use petal_sync::model::{
    DriveFile, FileCategory, LocalFileEntry, SyncAction, SyncActionType, SyncItem, CLOUD_ONLY, CONFLICT, FAILED, SYNCED,
};
use petal_sync::path_map::PathMap;
use petal_sync::planner::{DbSnapshotEntry, SyncSnapshot};
use petal_sync::remote_verification::{
    listing_needs_local_hash, verification_request, verify_created_by_id, verify_created_by_listing, verify_updated,
    FileLookup, RemoteVerification, VerificationRequest,
};
use petal_sync::rescue::add_rescue_folder_recreations;
use petal_sync::retry_policy::{classify_transfer_error, RecoveryContext, RecoveryDecision};
use petal_sync::settlement::{
    cycle_changed_content, merge_recovered, publish_settled_results, recovered_moves, settle_success, settlement_step,
    stat_target, tombstones_to_purge, ActionResult, LocalStat, RecoveredCloudFile, SettlementStep, StatTarget,
};
use petal_sync::transfer::{TransferOperation, TransferTask};

fn file(id: &str, name: &str, size: i64, folder: bool) -> DriveFile {
    DriveFile {
        id: id.to_string(),
        name: name.to_string(),
        category: if folder { FileCategory::Folder } else { FileCategory::Document },
        size,
        parent_folder: Some(vec!["parent-id".to_string()]),
        description: None,
        created_time: None,
        edited_time: Some(5_000),
        mime_type: None,
        content_hash: None,
        thumbnail_link: None,
    }
}

fn act(action_type: SyncActionType, path: &str, file_id: Option<&str>) -> SyncAction {
    SyncAction {
        action_type,
        relative_path: Some(path.to_string()),
        file_id: file_id.map(|f| f.to_string()),
        parent_file_id: None,
        local_path: None,
        cloud_file: None,
        reason: None,
    }
}

fn ok(cloud_file: Option<DriveFile>) -> ActionResult {
    ActionResult { success: true, error_message: None, deferred: false, cloud_file }
}

fn failed(deferred: bool) -> ActionResult {
    ActionResult { success: false, error_message: Some("boom".into()), deferred, cloud_file: None }
}

fn item(file_id: &str, path: &str, status: i32) -> SyncItem {
    SyncItem {
        file_id: file_id.to_string(),
        local_path: path.to_string(),
        parent_folder_id: None,
        name: path.to_string(),
        is_folder: false,
        size: 10,
        local_size: Some(10),
        sha256: Some("abc".into()),
        local_mtime: Some(100),
        cloud_edited_time: Some(5_000),
        last_sync_time: Some(1),
        status,
        error_message: Some("old".into()),
    }
}

fn task(operation: TransferOperation) -> TransferTask {
    TransferTask {
        id: 1,
        direction: 0,
        file_id: Some("fid".into()),
        local_path: Some("/mount/a.txt".into()),
        name: "a.txt".into(),
        total_size: 10,
        transferred: 0,
        state: 4,
        error_message: None,
        created_at: 1_000_000,
        finished_at: None,
        server_id: None,
        upload_id: None,
        resume_offset: 0,
        session_url: None,
        relative_path: Some("a.txt".into()),
        parent_file_id: Some("parent-id".into()),
        operation: Some(operation.code()),
        source_mtime: Some(100),
        source_size: Some(10),
        expected_cloud_edited_time: Some(4_000),
        attempt_count: 0,
        verify_attempt_count: 0,
        next_retry_at: None,
        error_kind: None,
        remote_result_file_id: None,
        state_revision: 0,
    }
}

#[test]
fn failed_results_never_settle_success() {
    let cloud = PathMap::new();
    let a = act(SyncActionType::Upload, "a.txt", Some("fid"));
    match settlement_step(&a, &failed(false), &cloud).unwrap() {
        SettlementStep::MarkFailed { file_id, path, message } => {
            assert_eq!(file_id, "fid");
            assert_eq!(path, "a.txt");
            assert_eq!(message.as_deref(), Some("boom"));
        }
        _ => panic!("expected a failure mark"),
    }
    assert!(matches!(settlement_step(&a, &failed(true), &cloud).unwrap(), SettlementStep::Keep));
    let pending = act(SyncActionType::Upload, "a.txt", Some("pending:a.txt"));
    assert!(matches!(settlement_step(&pending, &failed(false), &cloud).unwrap(), SettlementStep::Keep));
}

#[test]
fn confirmed_folder_delete_removes_the_subtree_baselines() {
    let mut cloud = PathMap::new();
    cloud.insert("dir".to_string(), file("dir-id", "dir", 0, true));
    let a = act(SyncActionType::DeleteFromCloud, "dir", Some("dir-id"));
    match settlement_step(&a, &ok(None), &cloud).unwrap() {
        SettlementStep::DeleteBaseline { path, file_id, subtree } => {
            assert_eq!(path, "dir");
            assert!(file_id.is_none());
            assert!(subtree);
        }
        _ => panic!("expected a baseline removal"),
    }
    let f = act(SyncActionType::DeleteFromLocal, "f.txt", Some(""));
    match settlement_step(&f, &ok(None), &cloud).unwrap() {
        SettlementStep::DeleteBaseline { file_id, subtree, .. } => {
            assert!(file_id.is_none());
            assert!(!subtree);
        }
        _ => panic!("expected a baseline removal"),
    }
}

#[test]
fn rename_upload_without_id_is_refused() {
    let cloud = PathMap::new();
    let mut a = act(SyncActionType::Upload, "b.txt", None);
    a.reason = Some("同目录改名检测：a.txt → b.txt".into());
    let error = settlement_step(&a, &ok(None), &cloud).err().unwrap();
    assert_eq!(error.message(), "同目录改名已完成但动作缺少 fileId");
    assert!(matches!(settlement_step(&act(SyncActionType::Download, "x", Some("x")), &ok(None), &cloud).unwrap(),
        SettlementStep::Keep));
}

#[test]
fn success_baseline_takes_cloud_identity_and_local_metadata() {
    let mut a = act(SyncActionType::CreatePlaceholder, "docs/a.txt", Some("fid"));
    a.cloud_file = Some(file("fid", "a.txt", 10, false));
    assert!(matches!(stat_target(&a), StatTarget::MountRelative(p) if p == "docs/a.txt"));
    let stat = LocalStat { is_symlink: false, is_dir: false, is_file: true, mtime_ms: Some(777), len: 0 };
    let plan = settle_success(&a, &ok(None), &Vec::new(), Some(stat), 9_000).unwrap().unwrap();
    assert_eq!(plan.item.file_id, "fid");
    assert_eq!(plan.item.name, "a.txt");
    assert_eq!(plan.item.parent_folder_id.as_deref(), Some("parent-id"));
    assert_eq!(plan.item.status, CLOUD_ONLY);
    assert_eq!(plan.item.local_mtime, Some(777));
    assert_eq!(plan.item.local_size, Some(0));
    assert_eq!(plan.item.cloud_edited_time, Some(5_000));
    assert_eq!(plan.item.last_sync_time, Some(9_000));
    assert!(plan.drop_pending && !plan.clear_path && !plan.drop_other_paths);

    let mut c = act(SyncActionType::CreateConflictCopy, "c.txt", Some("cid"));
    c.local_path = Some("/mount/c.txt".into());
    let plan = settle_success(&c, &ok(Some(file("cid", "c.txt", 3, false))), &Vec::new(), Some(stat), 1).unwrap().unwrap();
    assert_eq!(plan.item.status, CONFLICT);

    let dir_stat = LocalStat { is_symlink: false, is_dir: true, is_file: false, mtime_ms: Some(1), len: 0 };
    let error = settle_success(&a, &ok(None), &Vec::new(), Some(dir_stat), 1).err().unwrap();
    assert_eq!(error.message(), "成功动作结算时本地目标类型不一致：docs/a.txt");
    let no_time = LocalStat { mtime_ms: None, ..stat };
    let error = settle_success(&a, &ok(None), &Vec::new(), Some(no_time), 1).err().unwrap();
    assert_eq!(error.message(), "成功动作结算时无法读取本地修改时间：docs/a.txt");
    let no_id = act(SyncActionType::CreateFolder, "d", None);
    assert!(settle_success(&no_id, &ok(None), &Vec::new(), None, 1).unwrap().is_none());
}

#[test]
fn confirmed_move_keeps_the_previous_content_baseline() {
    let mut m = act(SyncActionType::MoveInCloud, "new.txt", Some("fid"));
    m.cloud_file = Some(file("fid", "new.txt", 10, false));
    let baselines = vec![item("fid", "old.txt", SYNCED)];
    let plan = settle_success(&m, &ok(None), &baselines, None, 1).unwrap().unwrap();
    assert_eq!(plan.item.local_path, "new.txt");
    assert_eq!(plan.item.sha256.as_deref(), Some("abc"));
    assert_eq!(plan.item.local_mtime, Some(100));
    assert_eq!(plan.item.error_message.as_deref(), Some("old"));
    assert!(plan.drop_other_paths);
    let error = settle_success(&m, &ok(None), &Vec::new(), None, 1).err().unwrap();
    assert_eq!(error.message(), "云端移动已确认但缺少原内容基线（fileId=fid）");
}

#[test]
fn published_results_keep_one_path_per_cloud_id() {
    let mut cloud = PathMap::new();
    let mut path_to_id = PathMap::new();
    let mut recent = PathMap::new();
    cloud.insert("old.txt".to_string(), file("fid", "old.txt", 1, false));
    path_to_id.insert("old.txt".to_string(), "fid".to_string());
    cloud.insert("dir".to_string(), file("dir-id", "dir", 0, true));
    cloud.insert("dir/x".to_string(), file("x-id", "x", 1, false));
    path_to_id.insert("dir".to_string(), "dir-id".to_string());
    path_to_id.insert("dir/x".to_string(), "x-id".to_string());
    recent.insert("stale".to_string(), 1_000i64);
    let mut moved = act(SyncActionType::MoveInCloud, "new.txt", Some("fid"));
    moved.cloud_file = Some(file("fid", "new.txt", 1, false));
    let actions = vec![moved, act(SyncActionType::DeleteFromCloud, "dir", Some("dir-id"))];
    let results = vec![ok(None), ok(None)];
    publish_settled_results(&mut cloud, &mut path_to_id, &mut recent, &actions, &results, 1_000_000);
    assert!(cloud.contains_key("new.txt") && !cloud.contains_key("old.txt"));
    assert!(!cloud.contains_key("dir") && !cloud.contains_key("dir/x"));
    assert_eq!(path_to_id.get("new.txt").map(|s| s.as_str()), Some("fid"));
    assert!(!path_to_id.contains_key("dir/x"));
    assert_eq!(recent.get("dir"), Some(&1_000_000));
    assert!(!recent.contains_key("stale"));
    assert!(cycle_changed_content(&actions, &results));
    assert!(!cycle_changed_content(&vec![act(SyncActionType::Skip, "s", None)], &vec![ok(None)]));
    let recovered = recovered_moves(&actions, &vec![ok(Some(file("fid", "new.txt", 1, false))), ok(None)]);
    assert_eq!(recovered.len(), 1);
    assert_eq!(recovered[0].relative_path, "new.txt");
}

#[test]
fn merged_recovery_moves_the_file_to_its_confirmed_path() {
    let mut tree = PathMap::new();
    let mut path_to_id = PathMap::new();
    tree.insert("a".to_string(), file("fid", "a", 1, false));
    path_to_id.insert("a".to_string(), "fid".to_string());
    let recovered = vec![RecoveredCloudFile { relative_path: "b".into(), file: file("fid", "b", 1, false) }];
    merge_recovered(&mut tree, &mut path_to_id, &recovered);
    assert!(!tree.contains_key("a") && tree.contains_key("b"));
    assert_eq!(path_to_id.len(), 1);
}

#[test]
fn tombstones_gone_from_the_cloud_are_purged() {
    let mut cloud = PathMap::new();
    cloud.insert("kept".to_string(), file("k", "kept", 1, false));
    let rows = vec![("kept".to_string(), "k".to_string()), ("gone".to_string(), "g".to_string())];
    assert_eq!(tombstones_to_purge(&rows, &cloud, &Vec::new()), vec!["gone".to_string()]);
}

#[test]
fn rescue_recreates_deleted_ancestor_folders_parents_first() {
    let mut local = PathMap::new();
    for (path, folder) in [("a", true), ("a/b", true), ("a/b/c.txt", false)] {
        local.insert(path.to_string(), LocalFileEntry {
            relative_path: path.into(),
            absolute_path: format!("/mount/{path}"),
            size: 1,
            mtime: 1,
            is_folder: folder,
            is_placeholder: false,
        });
    }
    let mut db = PathMap::new();
    for path in ["a", "a/b"] {
        db.insert(path.to_string(), DbSnapshotEntry {
            file_id: format!("{path}-id"),
            local_mtime: Some(1),
            local_size: Some(1),
            cloud_edited_time: None,
            status: SYNCED,
            is_folder: true,
        });
    }
    let snapshot = SyncSnapshot { local, cloud: PathMap::new(), db, cloud_tree_trusted: true, is_startup_resume: false };
    let mut actions = vec![act(SyncActionType::Upload, "a/b/c.txt", None)];
    add_rescue_folder_recreations(&mut actions, &snapshot, &PathMap::new());
    assert_eq!(actions.len(), 3);
    assert_eq!(actions[1].relative_path.as_deref(), Some("a"));
    assert_eq!(actions[2].relative_path.as_deref(), Some("a/b"));
    assert_eq!(actions[1].action_type, SyncActionType::CreateFolder);
    assert_eq!(actions[1].local_path.as_deref(), Some("/mount/a"));
    assert_eq!(actions[1].reason.as_deref(), Some("云端已删除但内有内容需救援 → 重建目录到云端"));

    let mut recent = PathMap::new();
    recent.insert("a".to_string(), 5i64);
    let mut actions = vec![act(SyncActionType::Upload, "a/b/c.txt", None)];
    add_rescue_folder_recreations(&mut actions, &snapshot, &recent);
    assert_eq!(actions.len(), 2);
    assert_eq!(actions[1].relative_path.as_deref(), Some("a/b"));
}

#[test]
fn remote_verification_commits_only_the_task_identity() {
    let t = task(TransferOperation::Create);
    let found = file("rid", "a.txt", 10, false);
    assert!(matches!(verify_created_by_id(&t, "rid", FileLookup::Found(found), None), RemoteVerification::Committed(_)));
    match verify_created_by_id(&t, "rid", FileLookup::Missing, None) {
        RemoteVerification::Ambiguous(m) => assert_eq!(m, "上传曾返回远端 ID，但该资源当前不可见；禁止重复创建"),
        _ => panic!("expected ambiguity"),
    }
    let wrong = file("rid", "b.txt", 10, false);
    assert!(matches!(verify_created_by_id(&t, "rid", FileLookup::Found(wrong), None), RemoteVerification::Ambiguous(_)));

    let mut timed = file("new", "a.txt", 10, false);
    timed.created_time = Some(1_000_500);
    let mut early = file("old", "a.txt", 10, false);
    early.created_time = Some(1);
    assert!(matches!(verify_created_by_listing(&t, &vec![early.duplicate()], None), RemoteVerification::NotCommitted));
    match verify_created_by_listing(&t, &vec![early.duplicate(), timed.duplicate()], None) {
        RemoteVerification::Committed(f) => assert_eq!(f.id, "new"),
        _ => panic!("expected a commit"),
    }
    assert!(matches!(verify_created_by_listing(&t, &vec![timed.duplicate(), timed.duplicate()], None),
        RemoteVerification::Ambiguous(_)));
    let untimed = file("u", "a.txt", 10, false);
    assert!(matches!(verify_created_by_listing(&t, &vec![untimed], None), RemoteVerification::Ambiguous(_)));
    let mut hashed = timed.duplicate();
    hashed.content_hash = Some("a".repeat(64));
    assert!(listing_needs_local_hash(&t, &vec![hashed.duplicate()]));
    assert!(matches!(verify_created_by_listing(&t, &vec![hashed], Some("b".repeat(64))), RemoteVerification::NotCommitted));
}

#[test]
fn update_verification_uses_edit_time_and_identity() {
    let t = task(TransferOperation::Update);
    let mut same = file("fid", "a.txt", 10, false);
    same.edited_time = Some(4_000);
    assert!(matches!(verify_updated(&t, "fid", FileLookup::Found(same)), RemoteVerification::NotCommitted));
    let changed = file("fid", "a.txt", 10, false);
    assert!(matches!(verify_updated(&t, "fid", FileLookup::Found(changed)), RemoteVerification::Committed(_)));
    assert!(matches!(verify_updated(&t, "fid", FileLookup::Missing), RemoteVerification::Ambiguous(_)));
    assert!(matches!(verification_request(&t).unwrap(), VerificationRequest::UpdatedFile(id) if id == "fid"));
    let c = task(TransferOperation::Create);
    assert!(matches!(verification_request(&c).unwrap(), VerificationRequest::ListParent(Some(p)) if p == "parent-id"));
    let mut d = task(TransferOperation::Download);
    assert!(matches!(verification_request(&d).unwrap(), VerificationRequest::Decided(RemoteVerification::Ambiguous(_))));
    d.operation = None;
    assert_eq!(verification_request(&d).err().unwrap().message(), "远端核验缺少 operation");
}

#[test]
fn free_up_requires_trusted_synced_unchanged_file() {
    let mut cloud = PathMap::new();
    cloud.insert("a.txt".to_string(), file("fid", "a.txt", 10, false));
    let record = item("fid", "a.txt", SYNCED);
    let meta = LocalMeta { mtime_ms: Some(100), len: 10 };
    let tasks: Vec<TransferTask> = Vec::new();
    assert_eq!(check_free_up(true, &cloud, "a.txt", "fid", Some(&tasks), Some(&record), Some(meta)), FreeUpCheckResult::Safe);
    assert_eq!(check_free_up(false, &cloud, "a.txt", "fid", Some(&tasks), Some(&record), Some(meta)), FreeUpCheckResult::NotSynced);
    assert_eq!(check_free_up(true, &cloud, "a.txt", "other", Some(&tasks), Some(&record), Some(meta)), FreeUpCheckResult::NotInCloud);
    let changed = LocalMeta { mtime_ms: Some(101), len: 10 };
    assert_eq!(check_free_up(true, &cloud, "a.txt", "fid", Some(&tasks), Some(&record), Some(changed)), FreeUpCheckResult::NotSynced);
    let running = vec![task(TransferOperation::Create)];
    assert_eq!(check_free_up(true, &cloud, "a.txt", "fid", Some(&running), Some(&record), Some(meta)), FreeUpCheckResult::NotSynced);
}

#[test]
fn cloud_delete_is_skipped_when_local_content_exists() {
    let mut a = act(SyncActionType::DeleteFromCloud, "a.txt", Some("fid"));
    guard_cloud_delete(&mut a, LocalPresence::Present { size: 12, placeholder: false });
    assert_eq!(a.action_type, SyncActionType::Skip);
    assert_eq!(a.reason.as_deref(), Some("防误删：本地文件实际存在（12 字节），跳过 DeleteFromCloud"));
    let mut b = act(SyncActionType::DeleteFromCloud, "b.txt", Some("fid"));
    guard_cloud_delete(&mut b, LocalPresence::Present { size: 0, placeholder: true });
    assert_eq!(b.action_type, SyncActionType::DeleteFromCloud);
    let mut c = act(SyncActionType::DeleteFromCloud, "c.txt", Some("fid"));
    guard_cloud_delete(&mut c, LocalPresence::Unreadable("denied".into()));
    assert_eq!(c.reason.as_deref(), Some("本地路径访问异常，无法证明文件已删除：denied"));
}

#[test]
fn snapshot_refuses_duplicate_paths() {
    let ok_records = vec![item("a", "x", SYNCED), item("b", "y", SYNCED)];
    let snap = load_db_snapshot(&ok_records).unwrap();
    assert_eq!(snap.len(), 2);
    assert_eq!(snap.get("y").map(|e| e.file_id.as_str()), Some("b"));
    let dup = vec![item("a", "x", SYNCED), item("b", "x", SYNCED)];
    assert_eq!(load_db_snapshot(&dup).err().unwrap().message(), "同步基线存在重复本地路径，拒绝继续规划：x");
}

#[test]
fn failed_records_heal_only_when_both_sides_match() {
    let mut local = PathMap::new();
    local.insert("a.txt".to_string(), LocalFileEntry {
        relative_path: "a.txt".into(),
        absolute_path: "/mount/a.txt".into(),
        size: 10,
        mtime: 100,
        is_folder: false,
        is_placeholder: false,
    });
    let mut cloud = PathMap::new();
    cloud.insert("a.txt".to_string(), file("fid", "a.txt", 10, false));
    let failed_item = item("fid", "a.txt", FAILED);
    assert_eq!(review_failed(&failed_item, &local, &cloud, &Vec::new()), FailedVerdict::HealFile);
    let mut changed = item("fid", "a.txt", FAILED);
    changed.local_mtime = Some(1);
    assert_eq!(review_failed(&changed, &local, &cloud, &Vec::new()), FailedVerdict::BaselineChanged);
    assert_eq!(review_failed(&item("other", "a.txt", FAILED), &local, &cloud, &Vec::new()), FailedVerdict::IdMismatch);
    assert_eq!(review_failed(&item("fid", "a.txt", SYNCED), &local, &cloud, &Vec::new()), FailedVerdict::NotReviewed);
    assert_eq!(review_failed(&item("pending:x", "x", FAILED), &local, &cloud, &Vec::new()), FailedVerdict::BothAbsent);
    let items = vec![item("fid", "a.txt", SYNCED), item("g", "gone", SYNCED)];
    assert_eq!(purge_candidates(&items, &local, &cloud, &Vec::new()), vec![1usize]);
    let mut counts = FailedRecordReconciliation::new();
    counts.count_review(FailedVerdict::HealFile, 0);
    counts.count_review(FailedVerdict::MissingSide { pending: true }, 0);
    counts.count_purge(0);
    assert_eq!(counts.transfer_blocked, 2);
    assert_eq!(counts.stale_transfer_blocked, 1);
    assert_eq!(counts.pending_id, 1);
    assert_eq!(counts.missing_side, 1);
}

#[test]
fn cycle_trigger_follows_request_priority() {
    let startup = CycleRequest::local_rescan().bitor(CycleRequest::startup()).bitor(CycleRequest::cloud_incremental());
    assert_eq!(cycle_trigger(startup), CycleTrigger::StartupResume);
    assert_eq!(cycle_trigger(startup).label(), "startup-resume");
    assert_eq!(cycle_trigger(CycleRequest::local_rescan()).sync_phase(), Some("syncing-local"));
    assert_eq!(cloud_refresh_for(startup, false), CloudRefresh::Keep);
    assert_eq!(cloud_refresh_for(startup, true), CloudRefresh::Incremental);
    assert_eq!(cloud_refresh_for(CycleRequest::cloud_full(), false), CloudRefresh::Full);
    assert_eq!(untrusted_outcome(startup).err().unwrap().message(), "启动云端 checkpoint 尚未追平，等待恢复");
    assert!(offline_outcome(CycleRequest::local_rescan()).is_ok());
}

#[test]
fn coordinator_reports_completed_requests() {
    let mut c = CycleCoordinator::new();
    let seq = c.request(CycleRequest::local_rescan());
    assert!(c.result_if_completed(seq).is_none());
    let (taken, through) = c.take_pending_with_sequence();
    assert!(taken.contains(CycleRequest::local_rescan()));
    c.complete(through, None);
    assert!(matches!(c.result_if_completed(seq), Some(Ok(()))));
    let next = c.request(CycleRequest::cloud_full());
    let (_, through) = c.take_pending_with_sequence();
    c.complete(through, Some(&AppError::generic("failed")));
    assert_eq!(c.result_if_completed(next).unwrap().err().unwrap().message(), "failed");
    assert!(matches!(c.result_if_completed(seq), Some(Ok(()))));
}

#[test]
fn closed_tracker_refuses_new_activity() {
    let mut t = ActivityTracker::new();
    let lease = t.begin(Some("a")).unwrap();
    assert!(t.begin_exclusive("a/b").is_err());
    assert!(t.release(lease));
    t.close();
    assert!(t.begin(None).is_err());
}

#[test]
fn retry_budget_backoff_is_bounded() {
    let context = RecoveryContext {
        operation: TransferOperation::Create,
        attempt_count: 20,
        now_ms: 1_000,
        jitter_ms: 999_999,
        auth_already_replayed: false,
        max_attempts: 30,
    };
    let error = AppError::drive_from_status(503, "{}");
    let r = classify_transfer_error(&error, context);
    assert!(r.consumes_retry_budget);
    assert_eq!(r.decision, RecoveryDecision::Backoff { next_retry_at: 301_000 });
    let exhausted = RecoveryContext { attempt_count: 30, ..context };
    let r = classify_transfer_error(&error, exhausted);
    assert!(!r.consumes_retry_budget);
    assert_eq!(r.decision, RecoveryDecision::VerifyRemote);
}
