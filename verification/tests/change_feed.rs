use petal_sync::changes::{apply_changes_to_candidate, build_id_index, is_valid_segment, Change, ChangeKind};
use petal_sync::error::AppError;
use petal_sync::model::{DriveFile, FileCategory, SyncAction, SyncActionType, SyncItem, SYNCED};
use petal_sync::path_map::PathMap;
use petal_sync::path_recovery::recovery_candidates;
use petal_sync::transfer::{TransferOperation, DIRECTION_DOWNLOAD, DIRECTION_DOWNLOAD_UPDATE, DIRECTION_UPLOAD};
use petal_sync::execution_order::folder_creation_order;
use petal_sync::transfer_actions::{pending_task_for_action, transfer_operation_for, SourceMeta};

fn drive(id: &str, name: &str, parent: &str, folder: bool) -> DriveFile {
    DriveFile {
        id: id.to_string(),
        name: name.to_string(),
        category: if folder { FileCategory::Folder } else { FileCategory::Document },
        size: 7,
        parent_folder: Some(vec![parent.to_string()]),
        description: None,
        created_time: None,
        edited_time: Some(9),
        mime_type: None,
        content_hash: None,
        thumbnail_link: None,
    }
}

/// A tree with `docs` (folder), `docs/a.txt` and `top.txt` below the root `root`.
fn candidate() -> (PathMap<DriveFile>, PathMap<String>) {
    let mut tree = PathMap::new();
    let mut ids = PathMap::new();
    for (path, file) in [
        ("docs", drive("docs-id", "docs", "root", true)),
        ("docs/a.txt", drive("a-id", "a.txt", "docs-id", false)),
        ("top.txt", drive("top-id", "top.txt", "root", false)),
    ] {
        ids.insert(path.to_string(), file.id.clone());
        tree.insert(path.to_string(), file);
    }
    (tree, ids)
}

fn modified(file: DriveFile) -> Change {
    Change { kind: ChangeKind::Modified, file_id: file.id.clone(), file: Some(file) }
}

fn removed(id: &str) -> Change {
    Change { kind: ChangeKind::Removed, file_id: id.to_string(), file: None }
}

fn message(r: Result<(), AppError>) -> String {
    match r {
        Err(AppError::Generic { message }) => message,
        other => panic!("expected a generic error, got {:?}", other),
    }
}

fn keys(m: &PathMap<String>) -> Vec<String> {
    let mut out: Vec<String> = (0..m.len()).map(|i| m.key(i).clone()).collect();
    out.sort();
    out
}

#[test]
fn id_index_inverts_paths_and_places_root() {
    let (_, ids) = candidate();
    let index = build_id_index(&ids, Some("root"));
    assert_eq!(index.get("root").map(|s| s.as_str()), Some(""));
    assert_eq!(index.get("docs-id").map(|s| s.as_str()), Some("docs"));
    assert_eq!(index.get("a-id").map(|s| s.as_str()), Some("docs/a.txt"));
    assert_eq!(index.len(), 4);
}

#[test]
fn moving_a_folder_rekeys_its_subtree() {
    let (mut tree, mut ids) = candidate();
    let changes = vec![modified(drive("docs-id", "papers", "root", true))];
    apply_changes_to_candidate(&mut tree, &mut ids, Some("root"), &changes).unwrap();
    assert_eq!(keys(&ids), vec!["papers", "papers/a.txt", "top.txt"]);
    assert_eq!(ids.get("papers/a.txt").map(|s| s.as_str()), Some("a-id"));
    assert_eq!(tree.get("papers").unwrap().name, "papers");
    assert!(tree.get("docs").is_none());
}

#[test]
fn new_file_lands_below_its_parent() {
    let (mut tree, mut ids) = candidate();
    let changes = vec![modified(drive("b-id", "b.txt", "docs-id", false))];
    apply_changes_to_candidate(&mut tree, &mut ids, Some("root"), &changes).unwrap();
    assert_eq!(ids.get("docs/b.txt").map(|s| s.as_str()), Some("b-id"));
    assert_eq!(tree.len(), 4);
}

#[test]
fn removing_a_folder_drops_its_subtree_and_unknown_ids_change_nothing() {
    let (mut tree, mut ids) = candidate();
    let changes = vec![removed("docs-id"), removed("never-seen")];
    apply_changes_to_candidate(&mut tree, &mut ids, Some("root"), &changes).unwrap();
    assert_eq!(keys(&ids), vec!["top.txt"]);
    assert_eq!(tree.len(), 1);
}

#[test]
fn removing_the_root_is_refused() {
    let (mut tree, mut ids) = candidate();
    let r = apply_changes_to_candidate(&mut tree, &mut ids, Some("root"), &vec![removed("root")]);
    assert_eq!(message(r), "Changes 试图删除云盘根目录");
}

#[test]
fn a_path_taken_by_another_id_is_refused() {
    let (mut tree, mut ids) = candidate();
    let r = apply_changes_to_candidate(&mut tree, &mut ids, Some("root"), &vec![modified(drive("x-id", "top.txt", "root", false))]);
    assert_eq!(message(r), "Change 目标路径冲突：top.txt");
}

#[test]
fn malformed_changes_are_refused_with_their_reason() {
    let (mut tree, mut ids) = candidate();
    let missing = Change { kind: ChangeKind::Modified, file_id: "q".into(), file: None };
    assert_eq!(message(apply_changes_to_candidate(&mut tree, &mut ids, Some("root"), &vec![missing])), "非删除 Change 缺少完整文件：q");

    let (mut tree, mut ids) = candidate();
    let bad = drive("q", "a/b", "root", false);
    assert_eq!(message(apply_changes_to_candidate(&mut tree, &mut ids, Some("root"), &vec![modified(bad)])), "非法路径段：a/b");

    let (mut tree, mut ids) = candidate();
    let mut orphan = drive("q", "q.txt", "root", false);
    orphan.parent_folder = None;
    assert_eq!(message(apply_changes_to_candidate(&mut tree, &mut ids, Some("root"), &vec![modified(orphan)])), "Change q 缺少 parentFolder");

    let (mut tree, mut ids) = candidate();
    let mut two = drive("q", "q.txt", "root", false);
    two.parent_folder = Some(vec!["root".into(), "docs-id".into()]);
    assert_eq!(message(apply_changes_to_candidate(&mut tree, &mut ids, Some("root"), &vec![modified(two)])), "Change q 的多父目录/空父目录语义不受支持");

    let (mut tree, mut ids) = candidate();
    let own = drive("q", "q", "q", true);
    assert_eq!(message(apply_changes_to_candidate(&mut tree, &mut ids, Some("root"), &vec![modified(own)])), "Change 的 parentFolder 指向自身");

    let (mut tree, mut ids) = candidate();
    let lost = drive("q", "q.txt", "elsewhere", false);
    assert_eq!(
        message(apply_changes_to_candidate(&mut tree, &mut ids, Some("root"), &vec![modified(lost)])),
        "Change q 的 parentFolder elsewhere 无法映射到可信路径"
    );
}

#[test]
fn a_folder_cannot_move_into_itself() {
    let (mut tree, mut ids) = candidate();
    let mut changes = vec![modified(drive("inner-id", "inner", "docs-id", true))];
    changes.push(modified(drive("docs-id", "docs", "inner-id", true)));
    let r = apply_changes_to_candidate(&mut tree, &mut ids, Some("root"), &changes);
    assert_eq!(message(r), "Change 试图把目录移动到自身子树");
}

#[test]
fn segment_names_are_checked() {
    assert!(is_valid_segment("a.txt"));
    assert!(!is_valid_segment(""));
    assert!(!is_valid_segment("."));
    assert!(!is_valid_segment(".."));
    assert!(!is_valid_segment("a\\b"));
    assert!(!is_valid_segment("a/b"));
}

fn action(action_type: SyncActionType, path: &str, file_id: Option<&str>) -> SyncAction {
    SyncAction {
        action_type,
        relative_path: Some(path.to_string()),
        file_id: file_id.map(|s| s.to_string()),
        parent_file_id: Some("parent".into()),
        local_path: Some(format!("/mount/{path}")),
        cloud_file: None,
        reason: None,
    }
}

#[test]
fn transfer_operations_follow_the_action() {
    let create = action(SyncActionType::Upload, "a.txt", None);
    let update = action(SyncActionType::Upload, "a.txt", Some("fid"));
    let down = action(SyncActionType::Download, "a.txt", Some("fid"));
    assert_eq!(transfer_operation_for(&create, false), TransferOperation::Create);
    assert_eq!(transfer_operation_for(&update, false), TransferOperation::Update);
    assert_eq!(transfer_operation_for(&down, false), TransferOperation::Download);
    assert_eq!(transfer_operation_for(&down, true), TransferOperation::DownloadUpdate);
}

#[test]
fn pending_tasks_record_source_only_when_it_matters() {
    let src = Some(SourceMeta { mtime_ms: Some(123), len: 55 });
    let up = pending_task_for_action(&action(SyncActionType::Upload, "dir/a.txt", None), false, src, 1_000);
    assert_eq!(up.direction, DIRECTION_UPLOAD);
    assert_eq!(up.name, "a.txt");
    assert_eq!(up.total_size, 55);
    assert_eq!(up.source_mtime, Some(123));
    assert_eq!(up.source_size, Some(55));
    assert_eq!(up.created_at, 1_000);
    assert_eq!(up.operation, Some(TransferOperation::Create.code()));

    let mut down_action = action(SyncActionType::Download, "dir/b.txt", Some("fid"));
    down_action.cloud_file = Some(drive("fid", "b.txt", "parent", false));
    let fresh = pending_task_for_action(&down_action, false, src, 2_000);
    assert_eq!(fresh.direction, DIRECTION_DOWNLOAD);
    assert_eq!(fresh.total_size, 7);
    assert_eq!(fresh.source_mtime, None);
    assert_eq!(fresh.expected_cloud_edited_time, Some(9));

    let replace = pending_task_for_action(&down_action, true, src, 2_000);
    assert_eq!(replace.direction, DIRECTION_DOWNLOAD_UPDATE);
    assert_eq!(replace.source_size, Some(55));
}

#[test]
fn folder_creations_run_parents_first() {
    let actions = vec![
        action(SyncActionType::CreateFolder, "a/b/c", None),
        action(SyncActionType::Upload, "x.txt", None),
        action(SyncActionType::CreateFolder, "a", None),
        action(SyncActionType::CreateFolder, "a/b", None),
        action(SyncActionType::CreateFolder, "z", None),
    ];
    assert_eq!(folder_creation_order(&actions), vec![2, 4, 3, 0]);
}

fn record(id: &str, path: &str, folder: bool) -> SyncItem {
    SyncItem {
        file_id: id.to_string(),
        local_path: path.to_string(),
        parent_folder_id: None,
        name: path.to_string(),
        is_folder: folder,
        size: 1,
        local_size: Some(1),
        sha256: None,
        local_mtime: None,
        cloud_edited_time: None,
        last_sync_time: None,
        status: SYNCED,
        error_message: None,
    }
}

#[test]
fn recovery_candidates_come_shallow_first_and_folders_first() {
    let records = vec![
        record("f1", "old/deep/x.txt", false),
        record("d1", "old", true),
        record("f2", "same.txt", false),
        record("f3", "top.txt", false),
        record("d2", "old/deep", true),
    ];
    let mut tree = PathMap::new();
    tree.insert("new/deep/x.txt".to_string(), drive("f1", "x.txt", "d2", false));
    tree.insert("new".to_string(), drive("d1", "new", "root", true));
    tree.insert("same.txt".to_string(), drive("f2", "same.txt", "root", false));
    tree.insert("moved.txt".to_string(), drive("f3", "moved.txt", "root", false));
    tree.insert("new/deep".to_string(), drive("d2", "deep", "d1", true));
    let got = recovery_candidates(&records, &tree);
    let order: Vec<(usize, &str)> = got.iter().map(|(i, p)| (*i, p.as_str())).collect();
    assert_eq!(order, vec![(1, "new"), (3, "moved.txt"), (4, "new/deep"), (0, "new/deep/x.txt")]);
}

#[test]
fn duplicated_cloud_ids_are_never_recovery_candidates() {
    let records = vec![record("f1", "a.txt", false)];
    let mut tree = PathMap::new();
    tree.insert("b.txt".to_string(), drive("f1", "b.txt", "root", false));
    tree.insert("c.txt".to_string(), drive("f1", "c.txt", "root", false));
    assert!(recovery_candidates(&records, &tree).is_empty());
}
