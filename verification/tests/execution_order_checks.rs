use petal_sync::execution_order::{folder_creation_order, missing_folder_result, results_in_order};
use petal_sync::model::{DriveFile, FileCategory, SyncAction, SyncActionType};
use petal_sync::settlement::ActionResult;

fn folder(id: &str) -> DriveFile {
    DriveFile {
        id: id.to_string(),
        name: "d".to_string(),
        category: FileCategory::Folder,
        size: 0,
        parent_folder: Some(vec!["root".to_string()]),
        description: None,
        created_time: None,
        edited_time: None,
        mime_type: None,
        content_hash: None,
        thumbnail_link: None,
    }
}

fn step(action_type: SyncActionType, path: Option<&str>, cloud: Option<DriveFile>) -> SyncAction {
    SyncAction {
        action_type,
        relative_path: path.map(|p| p.to_string()),
        file_id: None,
        parent_file_id: None,
        local_path: None,
        cloud_file: cloud,
        reason: None,
    }
}

#[test]
fn local_folders_are_created_parents_first() {
    let actions = vec![
        step(SyncActionType::CreateFolder, Some("a/b/c"), None),
        step(SyncActionType::Upload, Some("a/file.txt"), None),
        step(SyncActionType::CreateFolder, Some("a"), None),
        step(SyncActionType::CreateFolder, Some("x/y"), None),
        step(SyncActionType::CreateFolder, Some("cloud"), Some(folder("c1"))),
        step(SyncActionType::CreateFolder, Some("a/b"), None),
        step(SyncActionType::CreateFolder, Some("z"), None),
    ];
    assert_eq!(folder_creation_order(&actions), vec![2, 6, 3, 5, 0]);
}

#[test]
fn creation_order_is_empty_without_local_folders() {
    let actions = vec![
        step(SyncActionType::Upload, Some("a.txt"), None),
        step(SyncActionType::CreateFolder, Some("cloud"), Some(folder("c1"))),
    ];
    assert!(folder_creation_order(&actions).is_empty());
    assert!(folder_creation_order(&Vec::new()).is_empty());
}

#[test]
fn a_folder_without_path_counts_as_top_level() {
    let actions = vec![
        step(SyncActionType::CreateFolder, Some("p/q"), None),
        step(SyncActionType::CreateFolder, None, None),
    ];
    assert_eq!(folder_creation_order(&actions), vec![1, 0]);
}

#[test]
fn a_folder_creation_without_answer_is_a_failure() {
    let missing = missing_folder_result();
    assert!(!missing.success && !missing.deferred && missing.cloud_file.is_none());
    assert_eq!(missing.error_message.as_deref(), Some("目录创建未返回结果"));
    let ok = ActionResult { success: true, error_message: None, deferred: false, cloud_file: Some(folder("f")) };
    let all = results_in_order(vec![Some(missing), None, Some(ok)]);
    assert_eq!(all[0].error_message.as_deref(), Some("目录创建未返回结果"));
    assert_eq!(all[1].error_message.as_deref(), Some("动作未执行"));
    assert!(all[2].success);
}
