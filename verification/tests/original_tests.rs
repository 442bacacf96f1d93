use petal_sync::action_filters::{filter_active_transfer_actions, filter_skipped_paths};
use petal_sync::cloud_tree::detect_root_folder_id;
use petal_sync::conflict::{dedupe_copy_path, format_timestamp, ConflictResolver, ConflictSide};
use petal_sync::hydration::{
    build_download_task, plan_destination, resolve_hydration_metadata, same_hydration_intent,
    DestinationPlan, DestinationSnapshot, HydrationMetadata,
};
use petal_sync::model::{DriveFile, FileCategory, LocalFileEntry, SyncAction, SyncActionType, SyncItem, SYNCED};
use petal_sync::path_map::PathMap;
use petal_sync::planner::{DbSnapshotEntry, SyncPlanner, SyncSnapshot};
use petal_sync::transfer::{
    TransferOperation, TransferState, TransferTask, DIRECTION_DOWNLOAD, DIRECTION_DOWNLOAD_UPDATE,
    DIRECTION_UPLOAD,
};

fn drive_file(id: &str, name: &str, category: FileCategory, size: i64, parents: Option<Vec<&str>>) -> DriveFile {
    DriveFile {
        id: id.to_string(),
        name: name.to_string(),
        category,
        size,
        parent_folder: parents.map(|p| p.into_iter().map(|s| s.to_string()).collect()),
        description: None,
        created_time: None,
        edited_time: None,
        mime_type: None,
        content_hash: None,
        thumbnail_link: None,
    }
}

fn action(action_type: SyncActionType, path: &str, file_id: &str, parent: Option<&str>) -> SyncAction {
    SyncAction {
        action_type,
        relative_path: Some(path.to_string()),
        file_id: Some(file_id.to_string()),
        parent_file_id: parent.map(|p| p.to_string()),
        local_path: None,
        cloud_file: None,
        reason: None,
    }
}

#[test]
fn test_detect_root_folder_id_most_common() {
    let files = vec![
        drive_file("f1", "a", FileCategory::Folder, 0, Some(vec!["root-real-123"])),
        drive_file("f2", "b", FileCategory::Unclassified, 100, Some(vec!["root-real-123"])),
        drive_file("f3", "c", FileCategory::Unclassified, 50, Some(vec!["other-id"])),
    ];
    let root = detect_root_folder_id(&files);
    assert_eq!(root.as_deref(), Some("root-real-123"));
}

#[test]
fn test_detect_root_folder_id_no_consensus() {
    let files = vec![
        drive_file("f1", "a", FileCategory::Unclassified, 0, Some(vec!["id-a"])),
        drive_file("f2", "b", FileCategory::Unclassified, 0, Some(vec!["id-b"])),
    ];
    let root = detect_root_folder_id(&files);
    assert!(root.is_none());
}

#[test]
fn skipped_cloud_delete_action_is_removed() {
    let skip_patterns = vec![".DS_Store".to_string()];
    let mut actions = vec![
        action(SyncActionType::DeleteFromCloud, "projects/.DS_Store", "skipped-file-id", None),
        action(SyncActionType::DeleteFromCloud, "projects/keep.txt", "kept-file-id", None),
    ];
    filter_skipped_paths(&mut actions, &skip_patterns);
    assert_eq!(actions.len(), 1);
    assert_eq!(actions[0].relative_path.as_deref(), Some("projects/keep.txt"));
}

fn verifying_task(relative_path: &str, file_id: &str) -> TransferTask {
    TransferTask {
        id: 1,
        direction: 0,
        file_id: Some(file_id.to_string()),
        local_path: None,
        name: relative_path.rsplit('/').next().unwrap().to_string(),
        total_size: 4,
        transferred: 4,
        state: TransferState::VerifyingRemote.code(),
        error_message: None,
        created_at: 1,
        finished_at: None,
        server_id: None,
        upload_id: None,
        resume_offset: 0,
        session_url: None,
        relative_path: Some(relative_path.to_string()),
        parent_file_id: None,
        operation: Some(TransferOperation::Update.code()),
        source_mtime: Some(1),
        source_size: Some(4),
        expected_cloud_edited_time: Some(1),
        attempt_count: 1,
        verify_attempt_count: 0,
        next_retry_at: None,
        error_kind: None,
        remote_result_file_id: Some(file_id.to_string()),
        state_revision: 1,
    }
}

#[test]
fn active_transfer_blocks_identity_and_source_subtree_only() {
    let mut db = PathMap::new();
    db.insert(
        "contracts/old.docx".to_string(),
        DbSnapshotEntry {
            file_id: "document-id".to_string(),
            local_mtime: Some(1),
            local_size: Some(4),
            cloud_edited_time: Some(1),
            status: 0,
            is_folder: false,
        },
    );
    db.insert(
        "projects/old-folder".to_string(),
        DbSnapshotEntry {
            file_id: "folder-id".to_string(),
            local_mtime: None,
            local_size: None,
            cloud_edited_time: Some(1),
            status: 0,
            is_folder: true,
        },
    );
    let tasks = vec![
        verifying_task("contracts/old.docx", "document-id"),
        verifying_task("projects/old-folder/child.txt", "child-id"),
    ];
    let mut actions = vec![
        action(SyncActionType::MoveInCloud, "contracts/new.docx", "document-id", Some("contracts-folder-id")),
        action(SyncActionType::MoveInCloud, "archive/new-folder", "folder-id", Some("archive-folder-id")),
        action(SyncActionType::DeleteFromCloud, "unrelated.txt", "unrelated-id", None),
    ];
    filter_active_transfer_actions(&mut actions, &db, &tasks);
    assert_eq!(actions.len(), 1);
    assert_eq!(actions[0].relative_path.as_deref(), Some("unrelated.txt"));
}

fn sync_item(local_path: &str) -> SyncItem {
    SyncItem {
        file_id: "cloud-file".to_string(),
        local_path: local_path.to_string(),
        parent_folder_id: Some("parent".to_string()),
        name: "report.pdf".to_string(),
        is_folder: false,
        size: 42,
        local_size: Some(42),
        sha256: None,
        local_mtime: Some(1_000),
        cloud_edited_time: Some(2_000),
        last_sync_time: Some(3_000),
        status: SYNCED,
        error_message: None,
    }
}

#[test]
fn cached_metadata_requires_complete_version_baseline() {
    let record = sync_item("docs/report.pdf");
    let metadata = resolve_hydration_metadata(None, Some(&record)).expect("完整基线应可回退");
    assert_eq!(
        metadata,
        HydrationMetadata { edited_time: 2_000, size: 42, parent_file_id: Some("parent".to_string()) }
    );
    let mut incomplete = record;
    incomplete.cloud_edited_time = None;
    let error = resolve_hydration_metadata(None, Some(&incomplete)).expect_err("缺少云端版本必须拒绝");
    assert!(error.message().contains("editedTime"));
}

#[test]
fn local_update_keeps_cloud_version_snapshot() {
    let relative_path = "MEMORY.md".to_string();
    let local = LocalFileEntry {
        relative_path: relative_path.clone(),
        absolute_path: "/mount/MEMORY.md".to_string(),
        size: 12,
        mtime: 2_000,
        is_folder: false,
        is_placeholder: false,
    };
    let cloud = DriveFile {
        id: "cloud-file".to_string(),
        name: "MEMORY.md".to_string(),
        category: FileCategory::Document,
        size: 12,
        parent_folder: Some(vec!["root".to_string()]),
        description: None,
        created_time: None,
        edited_time: Some(3_000),
        mime_type: Some("text/markdown".to_string()),
        content_hash: None,
        thumbnail_link: None,
    };
    let db = DbSnapshotEntry {
        file_id: cloud.id.clone(),
        local_mtime: Some(1_000),
        local_size: Some(local.size as i64),
        cloud_edited_time: Some(3_000),
        status: SYNCED,
        is_folder: false,
    };
    let mut local_map = PathMap::new();
    local_map.insert(relative_path.clone(), local);
    let mut cloud_map = PathMap::new();
    cloud_map.insert(relative_path.clone(), cloud);
    let mut db_map = PathMap::new();
    db_map.insert(relative_path, db);
    let snapshot = SyncSnapshot {
        local: local_map,
        cloud: cloud_map,
        db: db_map,
        cloud_tree_trusted: true,
        is_startup_resume: false,
    };
    let actions = SyncPlanner.plan(&snapshot);
    assert_eq!(actions.len(), 1);
    assert_eq!(actions[0].action_type, SyncActionType::Upload);
    assert_eq!(actions[0].file_id.as_deref(), Some("cloud-file"));
    assert_eq!(actions[0].cloud_file.as_ref().and_then(|file| file.edited_time), Some(3_000));
}

fn hydration_task() -> TransferTask {
    build_download_task(
        "cloud-file",
        "docs/report.pdf",
        "/backing/docs/report.pdf",
        None,
        HydrationMetadata { edited_time: 55, size: 4, parent_file_id: Some("parent".to_string()) },
        77,
    )
}

#[test]
fn task_builder_preserves_download_contract() {
    let destination = "/backing/report.pdf";
    let metadata = || HydrationMetadata { edited_time: 55, size: 100, parent_file_id: Some("parent".to_string()) };
    let task = build_download_task("cloud-file", "docs/report.pdf", destination, None, metadata(), 77);
    assert_eq!(task.direction, DIRECTION_DOWNLOAD);
    assert_eq!(task.operation, Some(TransferOperation::Download.code()));
    assert_eq!(task.state, TransferState::Pending.code());
    assert_eq!(task.source_mtime, None);
    assert_eq!(task.source_size, None);
    assert_eq!(task.expected_cloud_edited_time, Some(55));
    assert_eq!(task.total_size, 100);
    assert_eq!(task.parent_file_id.as_deref(), Some("parent"));

    let update = build_download_task(
        "cloud-file",
        "docs/report.pdf",
        destination,
        Some(DestinationSnapshot { mtime: 88, size: 99 }),
        metadata(),
        77,
    );
    assert_eq!(update.direction, DIRECTION_DOWNLOAD_UPDATE);
    assert_eq!(update.operation, Some(TransferOperation::DownloadUpdate.code()));
    assert_eq!(update.source_mtime, Some(88));
    assert_eq!(update.source_size, Some(99));
}

#[test]
fn hydration_retry_requires_the_exact_same_download_intent() {
    let requested = hydration_task();
    let mut existing = hydration_task();
    assert!(same_hydration_intent(&existing, &requested));

    existing.operation = Some(TransferOperation::Create.code());
    existing.direction = DIRECTION_UPLOAD;
    assert!(!same_hydration_intent(&existing, &requested), "同路径失败上传绝不能由文件 open 自动重试");

    let mut wrong_file = hydration_task();
    wrong_file.file_id = Some("different-cloud-file".to_string());
    assert!(!same_hydration_intent(&wrong_file, &requested));
}

#[test]
fn destination_rejects_escape_without_database_record() {
    for unsafe_path in ["../outside", "/tmp/outside", "docs//report.pdf"] {
        let error = plan_destination(unsafe_path, None).expect_err("不安全相对路径必须拒绝");
        assert!(error.message().contains("路径"));
    }
}

#[test]
fn destination_identity_must_match_database_path() {
    let record = sync_item("docs/report.pdf");
    match plan_destination("docs/report.pdf", Some(&record)).expect("同一路径应通过") {
        DestinationPlan::Direct(path) => assert_eq!(path, "docs/report.pdf"),
        other => panic!("unexpected plan {other:?}"),
    }
    match plan_destination("other/report.pdf", Some(&record)).expect("不同路径需核验移动") {
        DestinationPlan::VerifyPendingMove { requested, recorded } => {
            assert_eq!(requested, "other/report.pdf");
            assert_eq!(recorded, "docs/report.pdf");
        }
        other => panic!("unexpected plan {other:?}"),
    }
}

const NOON: i64 = 1_781_956_800_000;

fn conflict_cloud_file(edited: i64) -> DriveFile {
    DriveFile {
        id: "f1".to_string(),
        name: "test.txt".to_string(),
        category: FileCategory::Unclassified,
        size: 100,
        parent_folder: None,
        description: None,
        created_time: None,
        edited_time: Some(edited),
        mime_type: Some("text/plain".to_string()),
        content_hash: None,
        thumbnail_link: None,
    }
}

#[test]
fn test_local_wins_when_60s_later() {
    let mut resolver = ConflictResolver::new();
    let cloud = conflict_cloud_file(1_781_956_680_000);
    let resolution = resolver.resolve("/tmp/dir/test.txt", &cloud, NOON, &Vec::new());
    assert_eq!(resolution.winner, ConflictSide::Local);
    assert!(resolution.copy_path.contains("云端副本"));
}

#[test]
fn test_cloud_wins_when_diff_less_than_60s() {
    let mut resolver = ConflictResolver::new();
    let cloud = conflict_cloud_file(1_781_956_770_000);
    let resolution = resolver.resolve("/tmp/dir/test.txt", &cloud, NOON, &Vec::new());
    assert_eq!(resolution.winner, ConflictSide::Cloud);
    assert!(resolution.copy_path.contains("本地副本"));
}

#[test]
fn test_cloud_wins_when_local_is_earlier() {
    let mut resolver = ConflictResolver::new();
    let cloud = conflict_cloud_file(NOON);
    let resolution = resolver.resolve("/tmp/dir/test.txt", &cloud, 1_781_953_200_000, &Vec::new());
    assert_eq!(resolution.winner, ConflictSide::Cloud);
}

const STAMP: i64 = 1_781_965_800_000;

#[test]
fn test_dedupe_copy_path_format() {
    let copy = dedupe_copy_path("/tmp/dir/report.txt", "本地副本", STAMP, &Vec::new());
    assert_eq!(copy.rsplit('/').next().unwrap(), "report (本地副本 2026-06-20 14-30-00).txt");
}

#[test]
fn test_dedupe_copy_path_adds_sequence() {
    let taken = vec!["report (本地副本 2026-06-20 14-30-00).txt".to_string()];
    let copy = dedupe_copy_path("/tmp/dir/report.txt", "本地副本", STAMP, &taken);
    assert!(copy.contains("(1)"));
}

#[test]
fn test_timestamp_format_no_colon() {
    let s = format_timestamp(STAMP).unwrap();
    assert!(!s.contains(':'));
    assert_eq!(s, "2026-06-20 14-30-00");
}
