use petal_sync::error::AppError;
use petal_sync::hydration::{
    errno_code, hydration_disposition_errno, hydration_error_errno, hydration_error_kind, ErrnoTable, FuseErrno,
    TaskDisposition,
};
use petal_sync::model::{DriveFile, FileCategory, LocalFileEntry, SyncAction, SyncActionType, SyncItem, SYNCED};
use petal_sync::path_map::PathMap;
use petal_sync::reconcile::{reconcile_identity, reconcile_start, IdentityStep, ReconcileStart};
use petal_sync::renames::{
    apply_move, note_replaced, rename_probe, rename_source, rename_verdict, retain_after_renames, stable_id,
    OldPathState, RenameLedger, RenameVerdict,
};

fn drive_file(id: &str, name: &str, parent: &str, is_folder: bool) -> DriveFile {
    DriveFile {
        id: id.to_string(),
        name: name.to_string(),
        category: if is_folder { FileCategory::Folder } else { FileCategory::Document },
        size: if is_folder { 0 } else { 7 },
        parent_folder: Some(vec![parent.to_string()]),
        description: None,
        created_time: None,
        edited_time: None,
        mime_type: None,
        content_hash: None,
        thumbnail_link: None,
    }
}

fn sync_item(file_id: &str, path: &str, is_folder: bool) -> SyncItem {
    SyncItem {
        file_id: file_id.to_string(),
        local_path: path.to_string(),
        parent_folder_id: None,
        name: path.rsplit('/').next().unwrap().to_string(),
        is_folder,
        size: if is_folder { 0 } else { 7 },
        local_size: Some(7),
        sha256: None,
        local_mtime: Some(1),
        cloud_edited_time: Some(1),
        last_sync_time: Some(1),
        status: SYNCED,
        error_message: None,
    }
}

fn plain_action(action_type: SyncActionType, path: &str, file_id: Option<&str>, local_path: Option<&str>) -> SyncAction {
    SyncAction {
        action_type,
        relative_path: Some(path.to_string()),
        file_id: file_id.map(|f| f.to_string()),
        parent_file_id: None,
        local_path: local_path.map(|p| p.to_string()),
        cloud_file: None,
        reason: None,
    }
}

/// The rename detection as the engine drives it, with the file system readings
/// given: the stable id on each local entry (by local path) and what each old
/// path shows.
fn detect_with(
    actions: &mut Vec<SyncAction>,
    records: &Vec<SyncItem>,
    cloud: &PathMap<DriveFile>,
    path_to_id: &PathMap<String>,
    root: &Option<String>,
    xattrs: &[(&str, &str, bool)],
    old_states: &[(&str, OldPathState)],
) {
    let mut ledger = RenameLedger { moves: Vec::new(), replaced: Vec::new() };
    for action in actions.iter_mut() {
        let Some(probe) = rename_probe(action) else { continue };
        let Some((_, id, is_dir)) = xattrs.iter().find(|(p, _, _)| *p == probe.local_path) else { continue };
        if *is_dir != probe.expects_folder {
            continue;
        }
        let Some(fid) = stable_id(Some(id.to_string())) else { continue };
        let Some(source) = rename_source(action, &fid, *is_dir, records, cloud) else { continue };
        let state = old_states
            .iter()
            .find(|(p, _)| *p == source.old.local_path)
            .map(|(_, s)| match s {
                OldPathState::Absent => OldPathState::Absent,
                OldPathState::Present { owner } => OldPathState::Present { owner: owner.clone() },
                OldPathState::Unverifiable => OldPathState::Unverifiable,
            })
            .unwrap_or(OldPathState::Absent);
        match rename_verdict(&state, &fid) {
            RenameVerdict::Skip | RenameVerdict::Copy => continue,
            RenameVerdict::Move { replaced } => {
                if replaced {
                    note_replaced(&mut ledger, &source, &fid);
                }
                apply_move(action, &mut ledger, &source, &fid, path_to_id, root);
            }
        }
    }
    retain_after_renames(actions, &ledger);
}

fn assert_detect_directory_move_collapses_subtree(
    old_root: &str,
    new_root: &str,
    source_parent_id: &str,
    target_parent_id: &str,
) {
    let new_nested = format!("{new_root}/nested");
    let new_file = format!("{new_nested}/note.txt");
    let old_nested = format!("{old_root}/nested");
    let old_file = format!("{old_nested}/note.txt");
    let records = vec![
        sync_item("folder-root-id", old_root, true),
        sync_item("nested-folder-id", &old_nested, true),
        sync_item("nested-file-id", &old_file, false),
    ];
    let mut cloud = PathMap::new();
    let mut path_to_id = PathMap::new();
    for (path, file) in [
        (old_root.to_string(), drive_file("folder-root-id", old_root.rsplit('/').next().unwrap(), source_parent_id, true)),
        (old_nested.clone(), drive_file("nested-folder-id", "nested", "folder-root-id", true)),
        (old_file.clone(), drive_file("nested-file-id", "note.txt", "nested-folder-id", false)),
    ] {
        path_to_id.insert(path.clone(), file.id.clone());
        cloud.insert(path, file);
    }
    if let Some((parent, _)) = new_root.rsplit_once('/') {
        path_to_id.insert(parent.to_string(), target_parent_id.to_string());
    }
    let new_root_abs = format!("/mount/{new_root}");
    let new_nested_abs = format!("/mount/{new_nested}");
    let new_file_abs = format!("/mount/{new_file}");
    let mut actions = vec![
        plain_action(SyncActionType::CreateFolder, new_root, None, Some(&new_root_abs)),
        plain_action(SyncActionType::CreateFolder, &new_nested, None, Some(&new_nested_abs)),
        plain_action(SyncActionType::Upload, &new_file, None, Some(&new_file_abs)),
        plain_action(SyncActionType::DeleteFromCloud, old_root, Some("folder-root-id"), None),
        plain_action(SyncActionType::DeleteFromCloud, &old_nested, Some("nested-folder-id"), None),
        plain_action(SyncActionType::DeleteFromCloud, &old_file, Some("nested-file-id"), None),
    ];
    detect_with(
        &mut actions,
        &records,
        &cloud,
        &path_to_id,
        &Some("root".to_string()),
        &[(new_root_abs.as_str(), "folder-root-id", true)],
        &[],
    );

    assert_eq!(actions.len(), 1, "目录根路径变化必须折叠旧/新子树全部派生动作");
    let moved = &actions[0];
    assert_eq!(moved.action_type, SyncActionType::MoveInCloud);
    assert_eq!(moved.relative_path.as_deref(), Some(new_root));
    assert_eq!(moved.file_id.as_deref(), Some("folder-root-id"));
    assert_eq!(moved.parent_file_id.as_deref(), Some(target_parent_id));
    assert!(moved.cloud_file.as_ref().is_some_and(|file| file.is_folder() && file.id == "folder-root-id"));
}

#[test]
fn detect_same_parent_directory_rename_collapses_entire_subtree() {
    assert_detect_directory_move_collapses_subtree("projects/old", "projects/new", "projects-id", "projects-id");
}

#[test]
fn detect_cross_parent_directory_move_collapses_entire_subtree() {
    assert_detect_directory_move_collapses_subtree("projects/old", "archive/new", "projects-id", "archive-id");
}

#[test]
fn detect_directory_move_rejects_duplicate_file_id_baselines() {
    let records = vec![
        sync_item("duplicate-folder-id", "old-a", true),
        sync_item("duplicate-folder-id", "old-b", true),
    ];
    let mut cloud = PathMap::new();
    cloud.insert("old-a".to_string(), drive_file("duplicate-folder-id", "old-a", "root", true));
    let path_to_id = PathMap::new();
    let mut actions = vec![plain_action(SyncActionType::CreateFolder, "new", None, Some("/mount/new"))];
    detect_with(
        &mut actions,
        &records,
        &cloud,
        &path_to_id,
        &None,
        &[("/mount/new", "duplicate-folder-id", true)],
        &[],
    );
    assert_eq!(actions.len(), 1);
    assert_eq!(actions[0].action_type, SyncActionType::CreateFolder);
    assert!(actions[0].file_id.is_none());
}

#[test]
fn same_folder_file_rename_becomes_one_move_with_reason() {
    let records = vec![sync_item("file-id", "docs/a.txt", false)];
    let mut cloud = PathMap::new();
    cloud.insert("docs/a.txt".to_string(), drive_file("file-id", "a.txt", "docs-id", false));
    let path_to_id = PathMap::new();
    let mut actions = vec![
        plain_action(SyncActionType::Upload, "docs/b.txt", None, Some("/mount/docs/b.txt")),
        plain_action(SyncActionType::DeleteFromCloud, "docs/a.txt", Some("file-id"), None),
    ];
    detect_with(&mut actions, &records, &cloud, &path_to_id, &None, &[("/mount/docs/b.txt", "file-id", false)], &[]);
    assert_eq!(actions.len(), 1);
    assert_eq!(actions[0].action_type, SyncActionType::MoveInCloud);
    assert_eq!(actions[0].parent_file_id.as_deref(), Some("docs-id"));
    assert_eq!(
        actions[0].reason.as_deref(),
        Some("同目录改名检测：docs/a.txt → docs/b.txt（fileId=file-id，先于内容同步）")
    );
}

#[test]
fn cross_folder_move_reason_shows_target_parent() {
    let records = vec![sync_item("file-id", "docs/a.txt", false)];
    let mut cloud = PathMap::new();
    cloud.insert("docs/a.txt".to_string(), drive_file("file-id", "a.txt", "docs-id", false));
    let mut path_to_id = PathMap::new();
    path_to_id.insert("archive".to_string(), "archive-id".to_string());
    let mut actions = vec![plain_action(SyncActionType::Upload, "archive/a.txt", None, Some("/mount/archive/a.txt"))];
    detect_with(&mut actions, &records, &cloud, &path_to_id, &None, &[("/mount/archive/a.txt", "file-id", false)], &[]);
    assert_eq!(actions[0].action_type, SyncActionType::MoveInCloud);
    assert_eq!(
        actions[0].reason.as_deref(),
        Some("跨目录移动检测：docs/a.txt → archive/a.txt（fileId=file-id，目标 parent=Some(\"archive-id\")）")
    );
}

#[test]
fn cross_folder_move_to_unknown_parent_says_none() {
    let records = vec![sync_item("file-id", "docs/a.txt", false)];
    let mut cloud = PathMap::new();
    cloud.insert("docs/a.txt".to_string(), drive_file("file-id", "a.txt", "docs-id", false));
    let path_to_id = PathMap::new();
    let mut actions = vec![plain_action(SyncActionType::Upload, "fresh/a.txt", None, Some("/mount/fresh/a.txt"))];
    detect_with(&mut actions, &records, &cloud, &path_to_id, &None, &[("/mount/fresh/a.txt", "file-id", false)], &[]);
    assert_eq!(actions[0].action_type, SyncActionType::MoveInCloud);
    assert!(actions[0].parent_file_id.is_none());
    assert_eq!(
        actions[0].reason.as_deref(),
        Some("跨目录移动检测：docs/a.txt → fresh/a.txt（fileId=file-id，目标 parent=None）")
    );
}

#[test]
fn copy_keeps_upload_when_old_path_still_owns_the_id() {
    let records = vec![sync_item("file-id", "a.txt", false)];
    let mut cloud = PathMap::new();
    cloud.insert("a.txt".to_string(), drive_file("file-id", "a.txt", "root", false));
    let path_to_id = PathMap::new();
    let mut actions = vec![plain_action(SyncActionType::Upload, "b.txt", None, Some("/mount/b.txt"))];
    detect_with(
        &mut actions,
        &records,
        &cloud,
        &path_to_id,
        &None,
        &[("/mount/b.txt", "file-id", false)],
        &[("a.txt", OldPathState::Present { owner: Some("file-id".to_string()) })],
    );
    assert_eq!(actions[0].action_type, SyncActionType::Upload);
    assert_eq!(rename_verdict(&OldPathState::Present { owner: Some("file-id".into()) }, "file-id"), RenameVerdict::Copy);
    assert_eq!(rename_verdict(&OldPathState::Present { owner: None }, "file-id"), RenameVerdict::Move { replaced: true });
    assert_eq!(rename_verdict(&OldPathState::Unverifiable, "file-id"), RenameVerdict::Skip);
}

#[test]
fn folder_is_never_moved_into_its_own_subtree() {
    let records = vec![sync_item("dir-id", "a", true)];
    let mut cloud = PathMap::new();
    cloud.insert("a".to_string(), drive_file("dir-id", "a", "root", true));
    let path_to_id = PathMap::new();
    let mut actions = vec![plain_action(SyncActionType::CreateFolder, "a/b", None, Some("/mount/a/b"))];
    detect_with(&mut actions, &records, &cloud, &path_to_id, &None, &[("/mount/a/b", "dir-id", true)], &[]);
    assert_eq!(actions.len(), 1);
    assert_eq!(actions[0].action_type, SyncActionType::CreateFolder);
    assert!(actions[0].file_id.is_none());
}

#[test]
fn reconcile_rejects_directory_with_different_xattr_identity() {
    let mut cloud = PathMap::new();
    cloud.insert("occupied".to_string(), drive_file("destination-folder-id", "occupied", "root", true));
    let entry = LocalFileEntry {
        relative_path: "occupied".into(),
        absolute_path: "/mount/occupied".into(),
        size: 0,
        mtime: 11,
        is_folder: true,
        is_placeholder: false,
    };
    let db = petal_sync::planner::DbSnapshotEntry {
        file_id: "destination-folder-id".into(),
        local_mtime: Some(11),
        local_size: Some(0),
        cloud_edited_time: None,
        status: SYNCED,
        is_folder: true,
    };
    // The folder must carry the baseline's identity; the local folder's own id
    // ("source-folder-id") differs, so binding it fails before any write.
    match reconcile_start("occupied", &entry, Some(&db), &cloud, &Vec::new()).unwrap() {
        ReconcileStart::VerifyFolder { file_id, revive } => {
            assert_eq!(file_id, "destination-folder-id");
            assert_ne!(file_id, "source-folder-id");
            assert_eq!(revive, None);
        }
        _ => panic!("expected an identity check"),
    }
}

#[test]
fn reconcile_refuses_folder_whose_cloud_identity_differs() {
    let mut cloud = PathMap::new();
    cloud.insert("dir".to_string(), drive_file("other-id", "dir", "root", true));
    let entry = LocalFileEntry {
        relative_path: "dir".into(),
        absolute_path: "/mount/dir".into(),
        size: 0,
        mtime: 1,
        is_folder: true,
        is_placeholder: false,
    };
    let db = petal_sync::planner::DbSnapshotEntry {
        file_id: "dir-id".into(),
        local_mtime: None,
        local_size: None,
        cloud_edited_time: None,
        status: SYNCED,
        is_folder: true,
    };
    let error = reconcile_start("dir", &entry, Some(&db), &cloud, &Vec::new()).err().unwrap();
    assert_eq!(error.message(), "目录 dir 的数据库与云端稳定身份不一致，拒绝继续规划");
}

#[test]
fn reconcile_identity_inserts_confirmed_baseline_and_defers_moves() {
    let mut cloud = PathMap::new();
    cloud.insert("docs/x.txt".to_string(), drive_file("x-id", "x.txt", "docs-id", false));
    let entry = LocalFileEntry {
        relative_path: "docs/x.txt".into(),
        absolute_path: "/mount/docs/x.txt".into(),
        size: 42,
        mtime: 9,
        is_folder: false,
        is_placeholder: false,
    };
    match reconcile_identity("docs/x.txt", &entry, "x-id", &cloud, &Vec::new(), &Vec::new(), 500) {
        IdentityStep::Insert(item) => {
            assert_eq!(item.file_id, "x-id");
            assert_eq!(item.name, "x.txt");
            assert_eq!(item.local_size, Some(42));
            assert_eq!(item.local_mtime, Some(9));
            assert_eq!(item.last_sync_time, Some(500));
            assert_eq!(item.status, SYNCED);
        }
        _ => panic!("expected an insert"),
    }
    let records = vec![sync_item("x-id", "old/x.txt", false)];
    assert!(matches!(
        reconcile_identity("docs/x.txt", &entry, "x-id", &cloud, &Vec::new(), &records, 500),
        IdentityStep::CheckOldPath { previous: 0 }
    ));
    assert!(matches!(
        reconcile_identity("docs/x.txt", &entry, "other", &cloud, &Vec::new(), &records, 500),
        IdentityStep::Skip
    ));
}

#[test]
fn fuse_error_mapping_distinguishes_network_retry_and_io_failure() {
    let network = AppError::drive_network(Some("offline"));
    assert_eq!(hydration_error_errno(&ErrnoTable::platform(), &network), libc::EHOSTUNREACH);

    let throttled = AppError::drive_from_status(429, "{}");
    assert_eq!(hydration_error_errno(&ErrnoTable::platform(), &throttled), libc::EAGAIN);

    let invalid = AppError::generic("invalid");
    assert_eq!(hydration_error_errno(&ErrnoTable::platform(), &invalid), libc::EIO);

    assert_eq!(hydration_disposition_errno(&ErrnoTable::platform(), TaskDisposition::WaitingForNetwork), libc::EHOSTUNREACH);
    assert_eq!(hydration_disposition_errno(&ErrnoTable::platform(), TaskDisposition::Pending), libc::EAGAIN);
}

#[test]
fn errno_kinds_follow_status_and_transport() {
    assert_eq!(hydration_error_kind(&AppError::drive_from_status(503, "")), FuseErrno::Again);
    assert_eq!(hydration_error_kind(&AppError::drive_from_status(404, "")), FuseErrno::Io);
    assert_eq!(hydration_disposition_errno(&ErrnoTable::platform(), TaskDisposition::Completed), 0);
    assert_eq!(errno_code(&ErrnoTable::platform(), FuseErrno::Success), 0);
}

#[test]
fn errno_table_maps_each_kind_to_its_number() {
    let table = ErrnoTable { io: 5, unreachable: 113, again: 11 };
    assert_eq!(errno_code(&table, FuseErrno::Io), 5);
    assert_eq!(errno_code(&table, FuseErrno::HostUnreachable), 113);
    assert_eq!(errno_code(&table, FuseErrno::Again), 11);
    assert_eq!(errno_code(&table, FuseErrno::Success), 0);
    let platform = ErrnoTable::platform();
    assert_eq!(platform, ErrnoTable { io: libc::EIO, unreachable: libc::EHOSTUNREACH, again: libc::EAGAIN });
}
