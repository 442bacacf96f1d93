use petal_sync::guards::LocalPresence;
use petal_sync::model::{SyncAction, SyncActionType};
use petal_sync::path_map::PathMap;
use petal_sync::plan_pipeline::{filter_plan, finish_plan, plan_unskipped};
use petal_sync::planner::SyncSnapshot;

fn delete(path: &str) -> SyncAction {
    SyncAction {
        action_type: SyncActionType::DeleteFromCloud,
        relative_path: Some(path.to_string()),
        file_id: Some(format!("id-{path}")),
        parent_file_id: None,
        local_path: None,
        cloud_file: None,
        reason: None,
    }
}

fn empty_snapshot() -> SyncSnapshot {
    SyncSnapshot {
        local: PathMap::new(),
        cloud: PathMap::new(),
        db: PathMap::new(),
        cloud_tree_trusted: true,
        is_startup_resume: false,
    }
}

#[test]
fn an_empty_snapshot_plans_nothing() {
    assert!(plan_unskipped(&empty_snapshot(), &Vec::new()).is_empty());
}

#[test]
fn cloud_deletions_are_checked_against_the_disk() {
    let mut actions = vec![delete("kept.txt"), delete("gone.txt"), delete("placeholder.txt")];
    let presences = vec![
        LocalPresence::Present { size: 5, placeholder: false },
        LocalPresence::Absent,
        LocalPresence::Present { size: 0, placeholder: true },
    ];
    finish_plan(&mut actions, presences, &PathMap::new());
    assert_eq!(actions.len(), 3);
    assert_eq!(actions[0].action_type, SyncActionType::Skip);
    assert_eq!(actions[0].reason.as_deref(), Some("防误删：本地文件实际存在（5 字节），跳过 DeleteFromCloud"));
    assert_eq!(actions[1].action_type, SyncActionType::DeleteFromCloud);
    assert_eq!(actions[2].action_type, SyncActionType::DeleteFromCloud);
}

#[test]
fn filters_keep_unrelated_actions_and_fill_parents() {
    let mut actions = vec![SyncAction {
        action_type: SyncActionType::Upload,
        relative_path: Some("docs/a.txt".to_string()),
        file_id: None,
        parent_file_id: None,
        local_path: Some("/mount/docs/a.txt".to_string()),
        cloud_file: None,
        reason: None,
    }];
    let mut path_to_id = PathMap::new();
    path_to_id.insert("docs".to_string(), "docs-id".to_string());
    filter_plan(&mut actions, &empty_snapshot(), &Vec::new(), &PathMap::new(), &path_to_id, &Vec::new());
    assert_eq!(actions.len(), 1);
    assert_eq!(actions[0].parent_file_id.as_deref(), Some("docs-id"));
}
