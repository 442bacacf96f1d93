use petal_sync::conflict::{ConflictResolver, ConflictSide};
use petal_sync::content_checks::LocalEntryKind;
use petal_sync::hydration_flow::{check_moved_target, MovedTargetProbe};
use petal_sync::model::{DriveFile, FileCategory};

const NOON: i64 = 1_781_956_800_000;

fn cloud_at(edited: i64) -> DriveFile {
    DriveFile {
        id: "f1".to_string(),
        name: "test.txt".to_string(),
        category: FileCategory::Unclassified,
        size: 100,
        parent_folder: None,
        description: None,
        created_time: None,
        edited_time: Some(edited),
        mime_type: None,
        content_hash: None,
        thumbnail_link: None,
    }
}

#[test]
fn local_wins_with_a_fraction_over_sixty_seconds() {
    let mut resolver = ConflictResolver::new();
    let r = resolver.resolve("/tmp/dir/test.txt", &cloud_at(NOON - 60_500), NOON, &Vec::new());
    assert_eq!(r.winner, ConflictSide::Local);
    let r = resolver.resolve("/tmp/dir/test.txt", &cloud_at(NOON - 60_000), NOON, &Vec::new());
    assert_eq!(r.winner, ConflictSide::Cloud);
}

#[test]
fn conflict_log_line_names_both_sides_and_the_copy() {
    let mut resolver = ConflictResolver::new();
    let r = resolver.resolve("/tmp/dir/test.txt", &cloud_at(NOON - 120_000), NOON, &Vec::new());
    assert!(r.log_message.starts_with('['));
    let tail = r.log_message.split_once("] ").map(|(_, t)| t.to_string()).unwrap_or_default();
    assert_eq!(
        tail,
        "冲突：test.txt | 正本=本地 (本地=2026-06-20 12-00-00 云端=2026-06-20 11-58-00) → 副本 test (云端副本 2026-06-20 11-58-00).txt"
    );
    assert_eq!(resolver.log()[0], r.log_message);
}

#[test]
fn pending_move_without_the_file_id_is_a_path_mismatch() {
    let probe = MovedTargetProbe {
        requested_parents: Ok(()),
        requested: Ok(LocalEntryKind::File { placeholder: false }),
        requested_owner: Ok(None),
        recorded_parents: Ok(()),
        recorded: Ok(None),
        recorded_owner: Ok(None),
    };
    let error = check_moved_target("cloud-file", &probe).expect_err("a different path without the stable id is refused");
    assert_eq!(error.message(), "下载路径不一致，且请求目标 fileId 不匹配：file_id=cloud-file");
    assert!(error.message().contains("下载路径不一致"));
}

fn cloud_without_time() -> DriveFile {
    let mut f = cloud_at(0);
    f.edited_time = None;
    f
}

#[test]
fn a_cloud_file_without_edit_time_is_compared_at_the_clock() {
    let mut resolver = ConflictResolver::new();
    let far_future: i64 = 4_102_444_800_000; // 2100-01-01
    let r = resolver.resolve("/tmp/dir/test.txt", &cloud_without_time(), far_future, &Vec::new());
    assert_eq!(r.winner, ConflictSide::Local);
    assert!(r.copy_path.starts_with("/tmp/dir/test (云端副本 "));
    assert!(r.log_message.contains("正本=本地 (本地=2100-01-01 00-00-00 云端="));
    let r = resolver.resolve("/tmp/dir/test.txt", &cloud_without_time(), NOON, &Vec::new());
    assert_eq!(r.winner, ConflictSide::Cloud);
    assert_eq!(r.copy_path, "/tmp/dir/test (本地副本 2026-06-20 12-00-00).txt");
}

#[test]
fn all_copy_names_taken_falls_back_to_the_clock_in_milliseconds() {
    let stamp = petal_sync::conflict::format_timestamp(NOON).expect("in range");
    let mut taken = vec![format!("test (本地副本 {stamp}).txt")];
    for n in 1..1000 {
        taken.push(format!("test (本地副本 {stamp}) ({n}).txt"));
    }
    let p = petal_sync::conflict::dedupe_copy_path("/tmp/dir/test.txt", "本地副本", NOON, &taken);
    let inner = p
        .strip_prefix("/tmp/dir/test (本地副本 ")
        .and_then(|rest| rest.strip_suffix(").txt"))
        .expect("fallback name shape");
    assert!(inner.parse::<i64>().is_ok());
    let free = petal_sync::conflict::dedupe_copy_path("/tmp/dir/test.txt", "本地副本", NOON, &taken[..999].to_vec());
    assert_eq!(free, format!("/tmp/dir/test (本地副本 {stamp}) (999).txt"));
}

#[test]
fn dot_names_have_an_empty_stem() {
    let stamp = petal_sync::conflict::format_timestamp(NOON).expect("in range");
    let p = petal_sync::conflict::dedupe_copy_path("/tmp/dir/..", "本地副本", NOON, &Vec::new());
    assert_eq!(p, format!("/tmp/dir/ (本地副本 {stamp})"));
}
