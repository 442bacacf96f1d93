//! Building the next trusted cloud checkpoint: when an incremental refresh
//! may replay changes, the checks before a replay, committing the results
//! that recovered transfers confirmed, and purging tombstones.

use vstd::prelude::*;
use crate::action_filters::{is_not_blank, not_blank};
use crate::changes::{apply_changes_to_candidate, apply_upto, id_index, injective, root_apart, Candidate, Change};
use crate::cloud_tree::{ids_unique, index_entries_backed, index_with_root, tree_entries_indexed, trusted_parts, CloudTreeCache};
use crate::error::AppError;
use crate::model::{opt_str, DriveFile};
use crate::path_map::PathMap;
use crate::path_recovery::BlockedPathChange;
use crate::settlement::{merge_recovered, merge_upto, purges_tombstone, tombstones_to_purge, RecoveredCloudFile};

verus! {

/// Incremental refreshes in a row after which a full scan corrects drift.
pub const INCREMENTAL_FORCED_FULL_THRESHOLD: u32 = 300;

/// The cursor an incremental refresh replays from: the saved one when it is
/// not blank and the run of incremental refreshes is below the threshold;
/// otherwise a full scan is due.
pub fn incremental_cursor(saved: Option<&str>, consecutive: u32) -> (r: Option<String>)
    ensures
        match saved {
            Some(c) => if consecutive < INCREMENTAL_FORCED_FULL_THRESHOLD && not_blank(c@) {
                r matches Some(x) && x@ == c@
            } else {
                r is None
            },
            None => r is None,
        },
{
    if consecutive >= INCREMENTAL_FORCED_FULL_THRESHOLD {
        return None;
    }
    match saved {
        Some(c) => if is_not_blank(c) { Some(c.to_owned()) } else { None },
        None => None,
    }
}

// ----- checks before a replay -----

/// Whether every key of `a` is a key of `b`.
fn keys_within<V: View, W: View>(a: &PathMap<V>, b: &PathMap<W>) -> (r: bool)
    requires
        a.wf(),
        b.wf(),
    ensures
        r == (forall|k: Seq<char>| a.as_map().contains_key(k) ==> b.as_map().contains_key(k)),
{
    let mut i: usize = 0;
    while i < a.len()
        invariant
            a.wf(),
            b.wf(),
            i <= a.size(),
            forall|j: int| 0 <= j < i ==> b.as_map().contains_key(#[trigger] a.keys()[j]),
        decreases a.size() - i,
    {
        if !b.contains_key(a.key(i).as_str()) {
            proof {
                a.lemma_lookup(i as int);
                assert(a.keys()[i as int] == a.key_at(i as int));
            }
            return false;
        }
        i = i + 1;
    }
    proof {
        assert forall|k: Seq<char>| a.as_map().contains_key(k) implies b.as_map().contains_key(k) by {
            let j = choose|j: int| 0 <= j < a.keys().len() && a.keys()[j] == k;
        }
    }
    true
}

/// Whether no two paths of the index carry the same id.
fn index_injective(p: &PathMap<String>) -> (r: bool)
    requires
        p.wf(),
    ensures
        r == injective(p.as_map()),
{
    let n = p.len();
    let mut i: usize = 0;
    while i < n
        invariant
            p.wf(),
            n == p.size(),
            i <= n,
            forall|x: int, y: int| 0 <= x < i && x < y < n ==> p.value_at(x) != p.value_at(y),
        decreases n - i,
    {
        let mut j: usize = i + 1;
        while j < n
            invariant
                p.wf(),
                n == p.size(),
                i < n,
                i + 1 <= j <= n,
                forall|x: int, y: int| 0 <= x < i && x < y < n ==> p.value_at(x) != p.value_at(y),
                forall|y: int| i < y < j ==> p.value_at(i as int) != p.value_at(y),
            decreases n - j,
        {
            if crate::paths::str_equal(p.value(i).as_str(), p.value(j).as_str()) {
                proof {
                    p.lemma_lookup(i as int);
                    p.lemma_lookup(j as int);
                    assert(p.keys()[i as int] != p.keys()[j as int]);
                    assert(!injective(p.as_map()));
                }
                return false;
            }
            j = j + 1;
        }
        i = i + 1;
    }
    proof {
        assert forall|a: Seq<char>, b: Seq<char>| #[trigger] p.as_map().contains_key(a) && #[trigger] p.as_map().contains_key(b) && a != b
            implies p.as_map()[a] != p.as_map()[b] by {
            let x = p.index_of_key(a);
            let y = p.index_of_key(b);
            let xa = choose|j: int| 0 <= j < p.keys().len() && p.keys()[j] == a;
            let yb = choose|j: int| 0 <= j < p.keys().len() && p.keys()[j] == b;
            p.lemma_lookup(xa);
            p.lemma_lookup(yb);
            assert(xa != yb);
            if xa < yb {
                assert(p.value_at(xa) != p.value_at(yb));
            } else {
                assert(p.value_at(yb) != p.value_at(xa));
            }
        }
    }
    true
}

/// Whether no path of the index carries the (non-blank) root id.
fn root_kept_apart(p: &PathMap<String>, root: Option<&str>) -> (r: bool)
    requires
        p.wf(),
    ensures
        r == root_apart(p.as_map(), match root { Some(s) => Some(s@), None => None }),
{
    let id = match root {
        Some(id) => id,
        None => return true,
    };
    if !is_not_blank(id) {
        return true;
    }
    let mut i: usize = 0;
    while i < p.len()
        invariant
            p.wf(),
            root == Some(id),
            not_blank(id@),
            i <= p.size(),
            forall|j: int| 0 <= j < i ==> p.value_at(j) != id@,
        decreases p.size() - i,
    {
        if crate::paths::str_equal(p.value(i).as_str(), id) {
            proof {
                p.lemma_lookup(i as int);
                assert(p.as_map().contains_key(p.key_at(i as int)) && p.as_map()[p.key_at(i as int)] == id@);
            }
            return false;
        }
        i = i + 1;
    }
    proof {
        assert forall|k: Seq<char>| #[trigger] p.as_map().contains_key(k) implies p.as_map()[k] != id@ by {
            let j = choose|j: int| 0 <= j < p.keys().len() && p.keys()[j] == k;
            p.lemma_lookup(j);
        }
    }
    true
}

pub open spec fn msg_candidate_inconsistent() -> Seq<char> {
    "云端候选树与路径索引不一致，拒绝重放 Changes"@
}

/// Replay the change feed on a candidate tree and path index (the root
/// folder's entry under the empty path is set aside and comes back when the
/// checkpoint is built). A candidate that cannot take the replay is refused.
pub fn replay_changes(
    tree: &mut PathMap<DriveFile>,
    path_to_id: &mut PathMap<String>,
    root_folder_id: Option<&str>,
    changes: &Vec<Change>,
) -> (r: Result<(), AppError>)
    requires
        old(tree).wf(),
        old(path_to_id).wf(),
    ensures
        final(tree).wf(),
        final(path_to_id).wf(),
        ({
            let root = match root_folder_id { Some(s) => Some(s@), None => None };
            let index = old(path_to_id).as_map().remove(Seq::empty());
            if !(old(tree).as_map().dom() == index.dom() && injective(index) && root_apart(index, root)) {
                r matches Err(e) && e is Generic && e.message_view() == msg_candidate_inconsistent()
            } else {
                match apply_upto((old(tree).as_map(), index, id_index(index, root)), changes@, changes@.len() as int) {
                    Ok(c) => r is Ok && final(tree).as_map() == c.0 && final(path_to_id).as_map() == c.1,
                    Err(Some(m)) => r matches Err(e) && e is Generic && e.message_view() == m,
                    Err(None) => r matches Err(e) && e is Generic,
                }
            }
        }),
{
    let empty = String::new();
    let _ = path_to_id.remove(empty.as_str());
    proof {
        assert(empty@ == Seq::<char>::empty());
    }
    if !keys_within(tree, path_to_id) || !keys_within(path_to_id, tree) || !index_injective(path_to_id)
        || !root_kept_apart(path_to_id, root_folder_id) {
        proof {
            if keys_within_spec(*tree, *path_to_id) && keys_within_spec(*path_to_id, *tree) {
                assert(tree.as_map().dom() =~= path_to_id.as_map().dom());
            }
        }
        return Err(AppError::generic("云端候选树与路径索引不一致，拒绝重放 Changes"));
    }
    assert(tree.as_map().dom() =~= path_to_id.as_map().dom());
    apply_changes_to_candidate(tree, path_to_id, root_folder_id, changes)
}

/// Every key of `a` is a key of `b`.
pub open spec fn keys_within_spec<V: View, W: View>(a: PathMap<V>, b: PathMap<W>) -> bool {
    forall|k: Seq<char>| a.as_map().contains_key(k) ==> b.as_map().contains_key(k)
}

// ----- committing recovered results -----

/// No two entries of the tree share a file id.
pub open spec fn map_ids_unique(t: Map<Seq<char>, crate::model::DriveFileView>) -> bool {
    forall|a: Seq<char>, b: Seq<char>| #[trigger] t.contains_key(a) && #[trigger] t.contains_key(b) && a != b
        ==> t[a].id != t[b].id
}

/// For a well-formed tree, unique ids by position are unique ids by path.
proof fn lemma_ids_unique_by_path(t: PathMap<DriveFile>)
    requires
        t.wf(),
    ensures
        ids_unique(t) <==> map_ids_unique(t.as_map()),
{
    if ids_unique(t) {
        assert forall|a: Seq<char>, b: Seq<char>| #[trigger] t.as_map().contains_key(a) && #[trigger] t.as_map().contains_key(b) && a != b
            implies t.as_map()[a].id != t.as_map()[b].id by {
            let x = choose|j: int| 0 <= j < t.keys().len() && t.keys()[j] == a;
            let y = choose|j: int| 0 <= j < t.keys().len() && t.keys()[j] == b;
            t.lemma_lookup(x);
            t.lemma_lookup(y);
            if x < y {
                assert(t.value_at(x).id != t.value_at(y).id);
            } else {
                assert(t.value_at(y).id != t.value_at(x).id);
            }
        }
    }
    if map_ids_unique(t.as_map()) {
        assert forall|i: int, j: int| 0 <= i < j < t.size() implies t.value_at(i).id != t.value_at(j).id by {
            t.lemma_lookup(i);
            t.lemma_lookup(j);
            assert(t.keys()[i] != t.keys()[j]);
        }
    }
}


pub open spec fn msg_untrusted_recovery() -> Seq<char> {
    "云端检查点不可信，拒绝发布恢复任务结果"@
}

pub open spec fn msg_missing_cursor() -> Seq<char> {
    "可信云端检查点缺少 cursor"@
}

/// The checkpoint after the cloud files that recovered transfers confirmed:
/// nothing to do without files; refused while the current checkpoint is not
/// trusted or has no cursor; otherwise the merged tree and index, built and
/// checked as a trusted checkpoint.
pub fn commit_recovered(
    tree: PathMap<DriveFile>,
    path_to_id: PathMap<String>,
    root_folder_id: Option<String>,
    cursor: Option<String>,
    trusted: bool,
    recovered: &Vec<RecoveredCloudFile>,
) -> (r: Result<Option<CloudTreeCache>, AppError>)
    requires
        tree.wf(),
        path_to_id.wf(),
    ensures
        recovered@.len() == 0 ==> r matches Ok(None),
        recovered@.len() > 0 && !trusted ==> (r matches Err(e) && e is Generic && e.message_view() == msg_untrusted_recovery()),
        recovered@.len() > 0 && trusted && !(cursor matches Some(c) && not_blank(c@)) ==> (r matches Err(e)
            && e is Generic && e.message_view() == msg_missing_cursor()),
        recovered@.len() > 0 && trusted && (cursor matches Some(c) && not_blank(c@)) ==> ({
            let merged = merge_upto((tree.as_map(), path_to_id.as_map()), recovered@, recovered@.len() as int);
            &&& (r matches Ok(Some(c)) ==> c.trusted() && c.tree.as_map() == merged.0
                && c.path_to_id.as_map() == index_with_root(merged.1, opt_str(root_folder_id))
                && opt_str(c.cursor) == opt_str(cursor) && opt_str(c.root_folder_id) == opt_str(root_folder_id))
            &&& (r matches Err(e) ==> e is Generic)
            &&& r is Ok <==> (map_ids_unique(merged.0)
                && tree_entries_indexed(merged.0, index_with_root(merged.1, opt_str(root_folder_id)))
                && index_entries_backed(merged.0, index_with_root(merged.1, opt_str(root_folder_id)), opt_str(root_folder_id)))
        }),
{
    if recovered.len() == 0 {
        return Ok(None);
    }
    if !trusted {
        return Err(AppError::generic("云端检查点不可信，拒绝发布恢复任务结果"));
    }
    let mut tree = tree;
    let mut path_to_id = path_to_id;
    merge_recovered(&mut tree, &mut path_to_id, recovered);
    let cursor = match cursor {
        Some(c) => if is_not_blank(c.as_str()) { c } else { return Err(AppError::generic("可信云端检查点缺少 cursor")) },
        None => return Err(AppError::generic("可信云端检查点缺少 cursor")),
    };
    proof {
        lemma_ids_unique_by_path(tree);
    }
    match CloudTreeCache::new_trusted(root_folder_id, tree, path_to_id, cursor) {
        Ok(c) => Ok(Some(c)),
        Err(e) => Err(e),
    }
}

// ----- tombstones -----

/// The tombstone paths to purge, refused while the cloud tree is not
/// trusted.
pub fn purge_if_trusted(
    trusted: bool,
    rows: &Vec<(String, String)>,
    cloud: &PathMap<DriveFile>,
    blocked_changes: &Vec<BlockedPathChange>,
) -> (r: Result<Vec<String>, AppError>)
    requires
        cloud.wf(),
    ensures
        !trusted ==> (r matches Err(e) && e is Generic && e.message_view() == "云端树尚未 catch-up，拒绝清理墓碑"@),
        trusted ==> (r matches Ok(v) && crate::model::strs(v) == rows@.filter(
            |row: (String, String)| purges_tombstone(row, cloud.as_map(), blocked_changes@))
            .map_values(|row: (String, String)| row.0@)),
{
    if !trusted {
        return Err(AppError::generic("云端树尚未 catch-up，拒绝清理墓碑"));
    }
    Ok(tombstones_to_purge(rows, cloud, blocked_changes))
}

} // verus!
