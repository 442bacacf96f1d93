//! Applying the drive's change feed to a candidate cloud tree and its path
//! index, refusing any change that cannot be placed safely.
//!
//! The tree maps relative paths to files, the path index maps the same paths
//! to file ids, and the id index maps ids back to paths (the root folder's id
//! to the empty path).

use vstd::prelude::*;
use crate::error::AppError;
use crate::model::{opt_str, DriveFile, DriveFileView};
use crate::path_map::PathMap;
use crate::paths::{in_subtree, is_in_subtree, segment_ok, str_equal, strict_descendant};
use crate::settlement::{key_set, remove_all, subtree_keys};
use crate::model::strs;
use crate::text::{concat, push_str};

verus! {

/// What a change reports.
#[derive(Debug, Clone, Copy, PartialEq, Eq, Structural)]
pub enum ChangeKind {
    /// The file is gone (deleted or out of reach).
    Removed,
    /// The file exists with the metadata given.
    Modified,
}

/// One entry of the drive's change feed.
#[derive(Debug)]
pub struct Change {
    pub kind: ChangeKind,
    pub file_id: String,
    pub file: Option<DriveFile>,
}

/// A file name that can stand as one path segment.
pub open spec fn valid_segment(name: Seq<char>) -> bool {
    segment_ok(name) && forall|i: int| 0 <= i < name.len() ==> name[i] != '/' && name[i] != '\\' && name[i] != '\0'
}

/// Whether a file name can stand as one path segment.
pub fn is_valid_segment(name: &str) -> (b: bool)
    ensures
        b == valid_segment(name@),
{
    let n = name.unicode_len();
    if n == 0 {
        return false;
    }
    proof {
        reveal_strlit(".");
        reveal_strlit("..");
        assert("."@ =~= seq!['.']);
        assert(".."@ =~= seq!['.', '.']);
    }
    if str_equal(name, ".") || str_equal(name, "..") {
        return false;
    }
    let mut i: usize = 0;
    while i < n
        invariant
            n == name@.len(),
            i <= n,
            forall|j: int| 0 <= j < i ==> name@[j] != '/' && name@[j] != '\\' && name@[j] != '\0',
        decreases n - i,
    {
        let c = name.get_char(i);
        if c == '/' || c == '\\' || c == '\0' {
            return false;
        }
        i = i + 1;
    }
    true
}

/// No two paths of the index carry the same id.
pub open spec fn injective(p: Map<Seq<char>, Seq<char>>) -> bool {
    forall|a: Seq<char>, b: Seq<char>| #[trigger] p.contains_key(a) && #[trigger] p.contains_key(b) && a != b
        ==> p[a] != p[b]
}

/// The candidate: tree, path index and id index.
pub type Candidate = (Map<Seq<char>, DriveFileView>, Map<Seq<char>, Seq<char>>, Map<Seq<char>, Seq<char>>);

/// The candidate is consistent: the tree and the path index hold the same
/// paths, with the file ids; the path index is injective; the id index is
/// its inverse, plus the root folder at the empty path.
pub open spec fn consistent(c: Candidate, root: Option<Seq<char>>) -> bool {
    &&& c.0.dom() == c.1.dom()
    &&& forall|k: Seq<char>| #[trigger] c.1.contains_key(k) ==> c.1[k] == c.0[k].id && k.len() > 0
    &&& injective(c.1)
    &&& forall|k: Seq<char>| #[trigger] c.1.contains_key(k) ==> c.2.contains_key(c.1[k]) && c.2[c.1[k]] == k
    &&& forall|id: Seq<char>| #[trigger] c.2.contains_key(id) ==>
        (c.2[id].len() == 0 && root == Some(id)) || (c.1.contains_key(c.2[id]) && c.1[c.2[id]] == id)
}

pub open spec fn msg_remove_root() -> Seq<char> {
    "Changes 试图删除云盘根目录"@
}

pub open spec fn msg_missing_file(fid: Seq<char>) -> Seq<char> {
    "非删除 Change 缺少完整文件："@ + fid
}

pub open spec fn msg_bad_name(name: Seq<char>) -> Seq<char> {
    "非法路径段："@ + name
}

pub open spec fn msg_no_parent(fid: Seq<char>) -> Seq<char> {
    "Change "@ + fid + " 缺少 parentFolder"@
}

pub open spec fn msg_parent_shape(fid: Seq<char>) -> Seq<char> {
    "Change "@ + fid + " 的多父目录/空父目录语义不受支持"@
}

pub open spec fn msg_self_parent() -> Seq<char> {
    "Change 的 parentFolder 指向自身"@
}

pub open spec fn msg_unknown_parent(fid: Seq<char>, parent: Seq<char>) -> Seq<char> {
    "Change "@ + fid + " 的 parentFolder "@ + parent + " 无法映射到可信路径"@
}

pub open spec fn msg_modify_root() -> Seq<char> {
    "Changes 不支持修改云盘根目录"@
}

pub open spec fn msg_into_subtree() -> Seq<char> {
    "Change 试图把目录移动到自身子树"@
}

pub open spec fn msg_path_conflict(path: Seq<char>) -> Seq<char> {
    "Change 目标路径冲突："@ + path
}

pub open spec fn msg_old_path_missing(path: Seq<char>) -> Seq<char> {
    "Change 引用的旧路径不在候选树："@ + path
}

/// The paths of the subtree at `root` that the tree holds.
pub open spec fn subtree_in(t: Map<Seq<char>, DriveFileView>, root: Seq<char>) -> Set<Seq<char>> {
    t.dom().filter(|k: Seq<char>| in_subtree(k, root))
}

/// The ids that the path index holds for `keys`.
pub open spec fn ids_at(p: Map<Seq<char>, Seq<char>>, keys: Set<Seq<char>>) -> Set<Seq<char>> {
    Set::new(|id: Seq<char>| exists|k: Seq<char>| keys.contains(k) && p.contains_key(k) && p[k] == id)
}

/// `path` moved from the subtree at `old` to the subtree at `new`.
pub open spec fn retarget(path: Seq<char>, old: Seq<char>, new: Seq<char>) -> Seq<char> {
    new + path.subrange(old.len() as int, path.len() as int)
}

/// A moved path: in the subtree at `new`, coming from a path of the tree in
/// the subtree at `old`.
pub open spec fn arrives(t: Map<Seq<char>, DriveFileView>, k: Seq<char>, old: Seq<char>, new: Seq<char>) -> bool {
    in_subtree(k, new) && t.contains_key(retarget(k, new, old)) && in_subtree(retarget(k, new, old), old)
}

/// A map re-keyed from the subtree at `old` to the subtree at `new`.
pub open spec fn rekey_map<V>(m: Map<Seq<char>, V>, t: Map<Seq<char>, DriveFileView>, old: Seq<char>, new: Seq<char>) -> Map<Seq<char>, V> {
    Map::new(
        |k: Seq<char>| (m.contains_key(k) && !in_subtree(k, old)) || arrives(t, k, old, new),
        |k: Seq<char>| if arrives(t, k, old, new) { m[retarget(k, new, old)] } else { m[k] },
    )
}

/// The candidate with the subtree at `old` moved to `new`: `Ok(None)` when a
/// moved path would land on a path the tree holds outside the subtree.
pub open spec fn rekey(c: Candidate, old: Seq<char>, new: Seq<char>) -> Result<Option<Candidate>, Seq<char>> {
    let moved = subtree_in(c.0, old);
    if moved.is_empty() {
        Err(msg_old_path_missing(old))
    } else if exists|k: Seq<char>| moved.contains(k) && c.0.contains_key(retarget(k, old, new))
        && !in_subtree(retarget(k, old, new), old) {
        Ok(None)
    } else {
        let ids = ids_at(c.1, moved);
        Ok(Some((
            rekey_map(c.0, c.0, old, new),
            rekey_map(c.1, c.0, old, new),
            Map::new(
                |id: Seq<char>| c.2.contains_key(id),
                |id: Seq<char>| if ids.contains(id) && in_subtree(c.2[id], old) { retarget(c.2[id], old, new) } else { c.2[id] },
            ),
        )))
    }
}

/// The path a modified file belongs at, below its parent's path.
pub open spec fn child_path(parent: Seq<char>, name: Seq<char>) -> Seq<char> {
    if parent.len() == 0 { name } else { parent + "/"@ + name }
}

/// The candidate after a removal: the subtree of the removed file leaves the
/// tree and both indexes. An unknown id changes nothing.
pub open spec fn removal(c: Candidate, fid: Seq<char>) -> Result<Candidate, Option<Seq<char>>> {
    if !c.2.contains_key(fid) {
        Ok(c)
    } else if c.2[fid].len() == 0 {
        Err(Some(msg_remove_root()))
    } else {
        let gone = subtree_in(c.0, c.2[fid]);
        Ok((c.0.remove_keys(gone), c.1.remove_keys(gone), c.2.remove_keys(ids_at(c.1, gone))))
    }
}

/// The single, non-blank parent of a modified file.
pub open spec fn sole_parent(f: DriveFile) -> Option<Seq<char>> {
    match f.parent_folder {
        Some(ps) => if ps@.len() == 1 && crate::action_filters::not_blank(ps@[0]@) { Some(ps@[0]@) } else { None },
        None => None,
    }
}

/// The candidate after a modification: the file goes to the path below its
/// parent; a file that was elsewhere moves there with its subtree.
pub open spec fn modification(c: Candidate, fid: Seq<char>, file: Option<DriveFile>) -> Result<Candidate, Option<Seq<char>>> {
    match file {
        None => Err(Some(msg_missing_file(fid))),
        Some(f) => if !valid_segment(f.name@) {
            Err(Some(msg_bad_name(f.name@)))
        } else if f.parent_folder is None {
            Err(Some(msg_no_parent(fid)))
        } else if sole_parent(f) is None {
            Err(Some(msg_parent_shape(fid)))
        } else if sole_parent(f)->0 == fid {
            Err(Some(msg_self_parent()))
        } else if !c.2.contains_key(sole_parent(f)->0) {
            Err(Some(msg_unknown_parent(fid, sole_parent(f)->0)))
        } else {
            let desired = child_path(c.2[sole_parent(f)->0], f.name@);
            let placed = if c.2.contains_key(fid) {
                let existing = c.2[fid];
                if existing.len() == 0 {
                    Err(Some(msg_modify_root()))
                } else if existing == desired {
                    Ok(c)
                } else if strict_descendant(desired, existing) {
                    Err(Some(msg_into_subtree()))
                } else {
                    match rekey(c, existing, desired) {
                        Err(m) => Err(Some(m)),
                        Ok(None) => Err(None),
                        Ok(Some(moved)) => Ok(moved),
                    }
                }
            } else if c.1.contains_key(desired) && c.1[desired] != fid {
                Err(Some(msg_path_conflict(desired)))
            } else {
                Ok(c)
            };
            match placed {
                Err(e) => Err(e),
                Ok(p) => Ok((p.0.insert(desired, f@), p.1.insert(desired, fid), p.2.insert(fid, desired))),
            }
        },
    }
}

/// The candidate after one change. `Err(None)` is a move whose target path
/// is taken (which one the message names is left open).
pub open spec fn change_step(c: Candidate, change: Change) -> Result<Candidate, Option<Seq<char>>> {
    match change.kind {
        ChangeKind::Removed => removal(c, change.file_id@),
        ChangeKind::Modified => modification(c, change.file_id@, change.file),
    }
}

/// The candidate after the first `n` changes, or the error of the first that
/// failed.
pub open spec fn apply_upto(c: Candidate, changes: Seq<Change>, n: int) -> Result<Candidate, Option<Seq<char>>>
    decreases n,
{
    if n <= 0 {
        Ok(c)
    } else {
        match apply_upto(c, changes, n - 1) {
            Err(e) => Err(e),
            Ok(p) => change_step(p, changes[n - 1]),
        }
    }
}

/// The id index of a path index: each id at its path, and the root folder at
/// the empty path.
pub open spec fn id_index(p: Map<Seq<char>, Seq<char>>, root: Option<Seq<char>>) -> Map<Seq<char>, Seq<char>> {
    let inverse = Map::new(
        |id: Seq<char>| exists|k: Seq<char>| p.contains_key(k) && p[k] == id,
        |id: Seq<char>| choose|k: Seq<char>| p.contains_key(k) && p[k] == id,
    );
    match root {
        Some(r) => if crate::action_filters::not_blank(r) { inverse.insert(r, Seq::empty()) } else { inverse },
        None => inverse,
    }
}

/// Build the id index of a path index (each id at its path) and the root
/// folder's id at the empty path, when it is not blank.
pub fn build_id_index(path_to_id: &PathMap<String>, root_folder_id: Option<&str>) -> (r: PathMap<String>)
    requires
        path_to_id.wf(),
        injective(path_to_id.as_map()),
    ensures
        r.wf(),
        r.as_map() == id_index(path_to_id.as_map(), match root_folder_id { Some(s) => Some(s@), None => None }),
{
    let ghost p = path_to_id.as_map();
    let mut r: PathMap<String> = PathMap::new();
    let mut i: usize = 0;
    while i < path_to_id.len()
        invariant
            path_to_id.wf(),
            p == path_to_id.as_map(),
            injective(p),
            r.wf(),
            i <= path_to_id.keys().len(),
            forall|id: Seq<char>| #[trigger] r.as_map().contains_key(id) <==>
                exists|j: int| 0 <= j < i && p[path_to_id.keys()[j]] == id,
            forall|id: Seq<char>| #[trigger] r.as_map().contains_key(id) ==>
                p.contains_key(r.as_map()[id]) && p[r.as_map()[id]] == id,
        decreases path_to_id.keys().len() - i,
    {
        let key = path_to_id.key(i);
        let id = path_to_id.value(i);
        proof {
            path_to_id.lemma_lookup(i as int);
        }
        let ghost before = r.as_map();
        r.insert(id.clone(), key.clone());
        proof {
            assert forall|x: Seq<char>| #[trigger] r.as_map().contains_key(x) <==>
                exists|j: int| 0 <= j < i + 1 && p[path_to_id.keys()[j]] == x by {
                if r.as_map().contains_key(x) && x != id@ {
                    assert(before.contains_key(x));
                }
                if x == id@ {
                    assert(p[path_to_id.keys()[i as int]] == x);
                }
                if exists|j: int| 0 <= j < i + 1 && p[path_to_id.keys()[j]] == x {
                    let j = choose|j: int| 0 <= j < i + 1 && p[path_to_id.keys()[j]] == x;
                    if j < i {
                        assert(before.contains_key(x));
                    }
                }
            }
        }
        i = i + 1;
    }
    proof {
        let inverse = Map::new(
            |id: Seq<char>| exists|k: Seq<char>| p.contains_key(k) && p[k] == id,
            |id: Seq<char>| choose|k: Seq<char>| p.contains_key(k) && p[k] == id,
        );
        assert forall|id: Seq<char>| r.as_map().contains_key(id) <==> inverse.contains_key(id) by {
            if r.as_map().contains_key(id) {
                assert(p.contains_key(r.as_map()[id]) && p[r.as_map()[id]] == id);
            }
            if inverse.contains_key(id) {
                let k = choose|k: Seq<char>| p.contains_key(k) && p[k] == id;
                let j = choose|j: int| 0 <= j < path_to_id.keys().len() && path_to_id.keys()[j] == k;
                assert(path_to_id.keys()[j] == k);
            }
        }
        assert forall|id: Seq<char>| r.as_map().contains_key(id) implies r.as_map()[id] == inverse[id] by {
            let k = choose|k: Seq<char>| p.contains_key(k) && p[k] == id;
            assert(p.contains_key(r.as_map()[id]) && p[r.as_map()[id]] == id);
            if k != r.as_map()[id] {
                assert(p[k] != p[r.as_map()[id]]);
            }
        }
        assert(r.as_map() =~= inverse);
    }
    if let Some(root) = root_folder_id {
        if crate::action_filters::is_not_blank(root) {
            r.insert(root.to_owned(), String::new());
        }
    }
    r
}

/// The ids that the path index holds for the listed paths.
fn ids_for(path_to_id: &PathMap<String>, keys: &Vec<String>) -> (r: Vec<String>)
    requires
        path_to_id.wf(),
    ensures
        key_set(strs(r)) == ids_at(path_to_id.as_map(), key_set(strs(*keys))),
{
    let ghost p = path_to_id.as_map();
    let mut r: Vec<String> = Vec::new();
    let mut i: usize = 0;
    while i < keys.len()
        invariant
            path_to_id.wf(),
            p == path_to_id.as_map(),
            i <= keys@.len(),
            forall|id: Seq<char>| #[trigger] strs(r).contains(id) <==>
                exists|j: int| 0 <= j < i && p.contains_key(keys@[j]@) && p[keys@[j]@] == id,
        decreases keys@.len() - i,
    {
        if let Some(id) = path_to_id.get(keys[i].as_str()) {
            let ghost before = strs(r);
            r.push(id.clone());
            proof {
                assert(strs(r) =~= before.push(id@));
                assert forall|x: Seq<char>| #[trigger] strs(r).contains(x) <==>
                    exists|j: int| 0 <= j < i + 1 && p.contains_key(keys@[j]@) && p[keys@[j]@] == x by {
                    if strs(r).contains(x) {
                        let w = choose|w: int| 0 <= w < strs(r).len() && strs(r)[w] == x;
                        if w < before.len() {
                            assert(before[w] == x);
                            assert(before.contains(x));
                        } else {
                            assert(p[keys@[i as int]@] == x);
                        }
                    }
                    if exists|j: int| 0 <= j < i + 1 && p.contains_key(keys@[j]@) && p[keys@[j]@] == x {
                        let j = choose|j: int| 0 <= j < i + 1 && p.contains_key(keys@[j]@) && p[keys@[j]@] == x;
                        if j < i {
                            assert(before.contains(x));
                            let w = choose|w: int| 0 <= w < before.len() && before[w] == x;
                            assert(strs(r)[w] == x);
                        } else {
                            assert(strs(r)[before.len() as int] == x);
                        }
                    }
                }
            }
        } else {
            proof {
                assert forall|x: Seq<char>| #[trigger] strs(r).contains(x) <==>
                    exists|j: int| 0 <= j < i + 1 && p.contains_key(keys@[j]@) && p[keys@[j]@] == x by {
                    if exists|j: int| 0 <= j < i + 1 && p.contains_key(keys@[j]@) && p[keys@[j]@] == x {
                        let j = choose|j: int| 0 <= j < i + 1 && p.contains_key(keys@[j]@) && p[keys@[j]@] == x;
                        assert(j < i);
                    }
                }
            }
        }
        i = i + 1;
    }
    proof {
        assert forall|id: Seq<char>| key_set(strs(r)).contains(id) <==> ids_at(p, key_set(strs(*keys))).contains(id) by {
            if key_set(strs(r)).contains(id) {
                let j = choose|j: int| 0 <= j < keys@.len() && p.contains_key(keys@[j]@) && p[keys@[j]@] == id;
                assert(strs(*keys)[j] == keys@[j]@);
                assert(key_set(strs(*keys)).contains(keys@[j]@));
            }
            if ids_at(p, key_set(strs(*keys))).contains(id) {
                let k = choose|k: Seq<char>| key_set(strs(*keys)).contains(k) && p.contains_key(k) && p[k] == id;
                let j = choose|j: int| 0 <= j < strs(*keys).len() && strs(*keys)[j] == k;
                assert(keys@[j]@ == k);
            }
        }
        assert(key_set(strs(r)) =~= ids_at(p, key_set(strs(*keys))));
    }
    r
}

/// The candidate's three maps.
pub open spec fn candidate_of(tree: PathMap<DriveFile>, path_to_id: PathMap<String>, id_to_path: PathMap<String>) -> Candidate {
    (tree.as_map(), path_to_id.as_map(), id_to_path.as_map())
}

/// Apply a removal change.
fn apply_removal(
    tree: &mut PathMap<DriveFile>,
    path_to_id: &mut PathMap<String>,
    id_to_path: &mut PathMap<String>,
    fid: &str,
) -> (r: Result<(), AppError>)
    requires
        old(tree).wf(),
        old(path_to_id).wf(),
        old(id_to_path).wf(),
    ensures
        final(tree).wf(),
        final(path_to_id).wf(),
        final(id_to_path).wf(),
        match removal(candidate_of(*old(tree), *old(path_to_id), *old(id_to_path)), fid@) {
            Ok(c) => r is Ok && candidate_of(*final(tree), *final(path_to_id), *final(id_to_path)) == c,
            Err(e) => r matches Err(err) && err is Generic && e == Some(err.message_view()),
        },
{
    let path = match id_to_path.get(fid) {
        None => return Ok(()),
        Some(p) => p.clone(),
    };
    if path.unicode_len() == 0 {
        return Err(AppError::generic("Changes 试图删除云盘根目录"));
    }
    let gone = subtree_keys(tree, path.as_str());
    let ids = ids_for(path_to_id, &gone);
    remove_all(tree, &gone);
    remove_all(path_to_id, &gone);
    remove_all(id_to_path, &ids);
    Ok(())
}

/// The tree and the path index hold the same paths, and the path index and
/// the id index point at each other (an id at the empty path is the root).
pub open spec fn linked(c: Candidate) -> bool {
    &&& c.0.dom() == c.1.dom()
    &&& injective(c.1)
    &&& forall|k: Seq<char>| #[trigger] c.1.contains_key(k) ==> c.2.contains_key(c.1[k]) && c.2[c.1[k]] == k
    &&& forall|id: Seq<char>| #[trigger] c.2.contains_key(id) ==>
        c.2[id].len() == 0 || (c.1.contains_key(c.2[id]) && c.1[c.2[id]] == id)
}

/// Moving a path of the subtree at `old` lands in the subtree at `new`, and
/// moving back returns it.
proof fn lemma_retarget(m: Seq<char>, old: Seq<char>, new: Seq<char>)
    requires
        in_subtree(m, old),
    ensures
        in_subtree(retarget(m, old, new), new),
        retarget(retarget(m, old, new), new, old) == m,
{
    let s = m.subrange(old.len() as int, m.len() as int);
    let t = retarget(m, old, new);
    assert(t.subrange(new.len() as int, t.len() as int) =~= s);
    if m == old {
        assert(s =~= Seq::<char>::empty());
        assert(t =~= new);
    } else {
        assert(t.subrange(0, new.len() as int) =~= new);
        assert(t[new.len() as int] == m[old.len() as int]);
    }
    assert(old + s =~= m);
}

/// Move the subtree at `old` to `new` in the tree and both indexes. A moved
/// path that would land on a path the tree holds outside the subtree is
/// refused, naming that path.
fn rekey_candidate_subtree(
    tree: &mut PathMap<DriveFile>,
    path_to_id: &mut PathMap<String>,
    id_to_path: &mut PathMap<String>,
    old_root: &str,
    new_root: &str,
) -> (r: Result<(), AppError>)
    requires
        old(tree).wf(),
        old(path_to_id).wf(),
        old(id_to_path).wf(),
        linked(candidate_of(*old(tree), *old(path_to_id), *old(id_to_path))),
    ensures
        final(tree).wf(),
        final(path_to_id).wf(),
        final(id_to_path).wf(),
        match rekey(candidate_of(*old(tree), *old(path_to_id), *old(id_to_path)), old_root@, new_root@) {
            Ok(Some(c)) => r is Ok && candidate_of(*final(tree), *final(path_to_id), *final(id_to_path)) == c,
            Ok(None) => r matches Err(e) && e is Generic,
            Err(m) => r matches Err(e) && e is Generic && e.message_view() == m,
        },
{
    let ghost c0 = candidate_of(*tree, *path_to_id, *id_to_path);
    let ghost t0 = c0.0;
    let ghost p0 = c0.1;
    let ghost i0 = c0.2;
    let moved = subtree_keys(tree, old_root);
    let ghost mset = key_set(strs(moved));
    assert(mset == subtree_in(t0, old_root@));
    if moved.len() == 0 {
        proof {
            assert forall|k: Seq<char>| !mset.contains(k) by {
                if mset.contains(k) {
                    let w = choose|w: int| 0 <= w < strs(moved).len() && strs(moved)[w] == k;
                }
            }
            assert(mset =~= Set::<Seq<char>>::empty());
        }
        return Err(AppError::generic(concat("Change 引用的旧路径不在候选树：", old_root).as_str()));
    }
    proof {
        assert(strs(moved).contains(strs(moved)[0]));
        assert(mset.contains(strs(moved)[0]));
        assert(!mset.is_empty());
    }
    let old_len = old_root.unicode_len();
    let mut targets: Vec<String> = Vec::new();
    let mut files: Vec<DriveFile> = Vec::new();
    let mut ids: Vec<String> = Vec::new();
    let mut i: usize = 0;
    while i < moved.len()
        invariant
            tree.wf(),
            path_to_id.wf(),
            id_to_path.wf(),
            c0 == candidate_of(*tree, *path_to_id, *id_to_path),
            t0 == c0.0,
            p0 == c0.1,
            t0.dom() == p0.dom(),
            mset == key_set(strs(moved)),
            mset == subtree_in(t0, old_root@),
            !mset.is_empty(),
            old_len == old_root@.len(),
            i <= moved@.len(),
            targets@.len() == i,
            files@.len() == i,
            ids@.len() == i,
            forall|x: int| 0 <= x < i ==> (#[trigger] targets@[x])@ == retarget(moved@[x]@, old_root@, new_root@)
                && files@[x]@ == t0[moved@[x]@] && ids@[x]@ == p0[moved@[x]@],
            forall|x: int| 0 <= x < i ==> !(t0.contains_key((#[trigger] targets@[x])@)
                && !in_subtree(targets@[x]@, old_root@)),
        decreases moved@.len() - i,
    {
        let m = &moved[i];
        proof {
            assert(strs(moved)[i as int] == m@);
            assert(mset.contains(m@));
        }
        let m_len = m.unicode_len();
        let target = concat(new_root, m.substring_char(old_len, m_len));
        if tree.contains_key(target.as_str()) && !is_in_subtree(target.as_str(), old_root) {
            proof {
                let ghost witness = m@;
                assert(subtree_in(c0.0, old_root@).contains(witness) && c0.0.contains_key(retarget(witness, old_root@, new_root@))
                    && !in_subtree(retarget(witness, old_root@, new_root@), old_root@));
                assert(!subtree_in(c0.0, old_root@).is_empty());
            }
            return Err(AppError::generic(concat("Change 移动/改名目标路径已存在：", target.as_str()).as_str()));
        }
        let file = match tree.get(m.as_str()) {
            Some(f) => f.duplicate(),
            None => {
                assert(false);
                return Err(AppError::generic("候选树移动时路径消失"));
            },
        };
        let id = match path_to_id.get(m.as_str()) {
            Some(v) => v.clone(),
            None => {
                assert(false);
                return Err(AppError::generic("候选路径索引移动时路径消失"));
            },
        };
        targets.push(target);
        files.push(file);
        ids.push(id);
        i = i + 1;
    }
    let targets = targets;
    let files = files;
    let ids = ids;
    proof {
        assert forall|k: Seq<char>| #[trigger] mset.contains(k) implies
            !(t0.contains_key(retarget(k, old_root@, new_root@)) && !in_subtree(retarget(k, old_root@, new_root@), old_root@)) by {
            let x = choose|x: int| 0 <= x < strs(moved).len() && strs(moved)[x] == k;
            assert(targets@[x]@ == retarget(moved@[x]@, old_root@, new_root@));
            assert(moved@[x]@ == k);
        }
    }
    remove_all(tree, &moved);
    remove_all(path_to_id, &moved);
    let ghost tb = tree.as_map();
    let ghost pb = path_to_id.as_map();
    let mut j: usize = 0;
    while j < targets.len()
        invariant
            tree.wf(),
            path_to_id.wf(),
            id_to_path.wf(),
            targets@.len() == moved@.len(),
            files@.len() == moved@.len(),
            ids@.len() == moved@.len(),
            mset == key_set(strs(moved)),
            mset == subtree_in(t0, old_root@),
            j <= targets@.len(),
            forall|x: int| 0 <= x < targets@.len() ==> (#[trigger] targets@[x])@ == retarget(moved@[x]@, old_root@, new_root@)
                && files@[x]@ == t0[moved@[x]@] && ids@[x]@ == p0[moved@[x]@],
            forall|k: Seq<char>| #[trigger] tree.as_map().contains_key(k) <==>
                (tb.contains_key(k) || exists|x: int| 0 <= x < j && targets@[x]@ == k),
            forall|k: Seq<char>| #[trigger] path_to_id.as_map().contains_key(k) <==>
                (pb.contains_key(k) || exists|x: int| 0 <= x < j && targets@[x]@ == k),
            forall|x: int| 0 <= x < j ==> tree.as_map()[#[trigger] targets@[x]@] == t0[moved@[x]@]
                && path_to_id.as_map()[targets@[x]@] == p0[moved@[x]@]
                && id_to_path.as_map()[ids@[x]@] == targets@[x]@,
            forall|k: Seq<char>| tb.contains_key(k) && !(exists|x: int| 0 <= x < j && targets@[x]@ == k)
                ==> #[trigger] tree.as_map()[k] == tb[k],
            forall|k: Seq<char>| pb.contains_key(k) && !(exists|x: int| 0 <= x < j && targets@[x]@ == k)
                ==> #[trigger] path_to_id.as_map()[k] == pb[k],
            linked(c0),
            t0 == c0.0,
            p0 == c0.1,
            i0 == c0.2,
            forall|id: Seq<char>| #[trigger] id_to_path.as_map().contains_key(id) <==> i0.contains_key(id),
            forall|id: Seq<char>| i0.contains_key(id) && !(exists|x: int| 0 <= x < j && ids@[x]@ == id)
                ==> #[trigger] id_to_path.as_map()[id] == i0[id],
        decreases targets@.len() - j,
    {
        let ghost tprev = tree.as_map();
        let ghost pprev = path_to_id.as_map();
        let ghost iprev = id_to_path.as_map();
        proof {
            let mj = moved@[j as int]@;
            assert(mset.contains(mj)) by {
                assert(strs(moved)[j as int] == mj);
            }
            assert(p0.contains_key(mj));
            assert(i0.contains_key(p0[mj]));
        }
        id_to_path.insert(ids[j].clone(), targets[j].clone());
        tree.insert(targets[j].clone(), files[j].duplicate());
        path_to_id.insert(targets[j].clone(), ids[j].clone());
        proof {
            let mj = moved@[j as int]@;
            assert(mset.contains(mj)) by {
                assert(strs(moved)[j as int] == mj);
            }
            lemma_retarget(mj, old_root@, new_root@);
            assert forall|x: int| 0 <= x < j + 1 implies tree.as_map()[#[trigger] targets@[x]@] == t0[moved@[x]@]
                && path_to_id.as_map()[targets@[x]@] == p0[moved@[x]@]
                && id_to_path.as_map()[ids@[x]@] == targets@[x]@ by {
                if x < j && targets@[x]@ == targets@[j as int]@ {
                    let mx = moved@[x]@;
                    assert(mset.contains(mx)) by {
                        assert(strs(moved)[x] == mx);
                    }
                    lemma_retarget(mx, old_root@, new_root@);
                    assert(mx == mj);
                }
                if x < j && ids@[x]@ == ids@[j as int]@ {
                    let mx = moved@[x]@;
                    assert(mset.contains(mx)) by {
                        assert(strs(moved)[x] == mx);
                    }
                    assert(p0[mx] == p0[mj]);
                    assert(t0.contains_key(mx) && t0.contains_key(mj));
                    assert(mx == mj);
                }
            }
            assert forall|id: Seq<char>| i0.contains_key(id) && !(exists|x: int| 0 <= x < j + 1 && ids@[x]@ == id)
                implies #[trigger] id_to_path.as_map()[id] == i0[id] by {
                assert(ids@[j as int]@ != id);
            }
            assert forall|k: Seq<char>| #[trigger] tree.as_map().contains_key(k) <==>
                (tb.contains_key(k) || exists|x: int| 0 <= x < j + 1 && targets@[x]@ == k) by {
                if k == targets@[j as int]@ {
                    assert(targets@[j as int]@ == k);
                }
                if exists|x: int| 0 <= x < j + 1 && targets@[x]@ == k {
                    let x = choose|x: int| 0 <= x < j + 1 && targets@[x]@ == k;
                    if x < j {
                        assert(tprev.contains_key(k));
                    }
                }
            }
            assert forall|k: Seq<char>| #[trigger] path_to_id.as_map().contains_key(k) <==>
                (pb.contains_key(k) || exists|x: int| 0 <= x < j + 1 && targets@[x]@ == k) by {
                if exists|x: int| 0 <= x < j + 1 && targets@[x]@ == k {
                    let x = choose|x: int| 0 <= x < j + 1 && targets@[x]@ == k;
                    if x < j {
                        assert(pprev.contains_key(k));
                    }
                }
            }
        }
        j = j + 1;
    }
    proof {
        let c = rekey(c0, old_root@, new_root@);
        assert(!(exists|k: Seq<char>| subtree_in(t0, old_root@).contains(k) && t0.contains_key(retarget(k, old_root@, new_root@))
            && !in_subtree(retarget(k, old_root@, new_root@), old_root@)));
        assert(!subtree_in(t0, old_root@).is_empty());
        let want_t = rekey_map(t0, t0, old_root@, new_root@);
        let want_p = rekey_map(p0, t0, old_root@, new_root@);
        assert forall|k: Seq<char>| arrives(t0, k, old_root@, new_root@)
            <==> exists|x: int| 0 <= x < targets@.len() && targets@[x]@ == k by {
            if arrives(t0, k, old_root@, new_root@) {
                let src = retarget(k, new_root@, old_root@);
                assert(mset.contains(src));
                let x = choose|x: int| 0 <= x < strs(moved).len() && strs(moved)[x] == src;
                assert(moved@[x]@ == src);
                assert(new_root@ + k.subrange(new_root@.len() as int, k.len() as int) =~= k) by {
                    if k != new_root@ {
                        assert(k.subrange(0, new_root@.len() as int) =~= new_root@);
                    }
                }
                let s = k.subrange(new_root@.len() as int, k.len() as int);
                assert(src.subrange(old_root@.len() as int, src.len() as int) =~= s);
                assert(targets@[x]@ == k);
            }
            if exists|x: int| 0 <= x < targets@.len() && targets@[x]@ == k {
                let x = choose|x: int| 0 <= x < targets@.len() && targets@[x]@ == k;
                let mx = moved@[x]@;
                assert(mset.contains(mx)) by {
                    assert(strs(moved)[x] == mx);
                }
                lemma_retarget(mx, old_root@, new_root@);
            }
        }
        assert forall|k: Seq<char>| tree.as_map().contains_key(k) <==> want_t.contains_key(k) by {
            if tb.contains_key(k) {
                assert(t0.contains_key(k) && !mset.contains(k));
            }
            if t0.contains_key(k) && !in_subtree(k, old_root@) {
                assert(!mset.contains(k));
                assert(tb.contains_key(k));
            }
        }
        assert forall|k: Seq<char>| tree.as_map().contains_key(k) implies tree.as_map()[k] == want_t[k] by {
            if arrives(t0, k, old_root@, new_root@) {
                let x = choose|x: int| 0 <= x < targets@.len() && targets@[x]@ == k;
                let mx = moved@[x]@;
                assert(mset.contains(mx)) by {
                    assert(strs(moved)[x] == mx);
                }
                lemma_retarget(mx, old_root@, new_root@);
                assert(tree.as_map()[targets@[x]@] == t0[mx]);
            } else {
                assert(tb.contains_key(k));
            }
        }
        assert(tree.as_map() =~= want_t);
        assert forall|k: Seq<char>| path_to_id.as_map().contains_key(k) <==> want_p.contains_key(k) by {
            if pb.contains_key(k) {
                assert(p0.contains_key(k) && !mset.contains(k));
            }
            if p0.contains_key(k) && !in_subtree(k, old_root@) {
                assert(t0.contains_key(k));
                assert(!mset.contains(k));
                assert(pb.contains_key(k));
            }
        }
        assert forall|k: Seq<char>| path_to_id.as_map().contains_key(k) implies path_to_id.as_map()[k] == want_p[k] by {
            if arrives(t0, k, old_root@, new_root@) {
                let x = choose|x: int| 0 <= x < targets@.len() && targets@[x]@ == k;
                let mx = moved@[x]@;
                assert(mset.contains(mx)) by {
                    assert(strs(moved)[x] == mx);
                }
                lemma_retarget(mx, old_root@, new_root@);
                assert(path_to_id.as_map()[targets@[x]@] == p0[mx]);
            } else {
                assert(pb.contains_key(k));
            }
        }
        assert(path_to_id.as_map() =~= want_p);
        let ids_set = ids_at(p0, subtree_in(t0, old_root@));
        let want_i = Map::new(
            |id: Seq<char>| i0.contains_key(id),
            |id: Seq<char>| if ids_set.contains(id) && in_subtree(i0[id], old_root@) {
                retarget(i0[id], old_root@, new_root@) } else { i0[id] },
        );
        assert forall|id: Seq<char>| id_to_path.as_map().contains_key(id) implies id_to_path.as_map()[id] == want_i[id] by {
            if exists|x: int| 0 <= x < targets@.len() && ids@[x]@ == id {
                let x = choose|x: int| 0 <= x < targets@.len() && ids@[x]@ == id;
                let mx = moved@[x]@;
                assert(mset.contains(mx)) by {
                    assert(strs(moved)[x] == mx);
                }
                assert(p0.contains_key(mx));
                assert(i0[p0[mx]] == mx);
                assert(targets@[x]@ == retarget(mx, old_root@, new_root@));
                assert(subtree_in(t0, old_root@).contains(mx) && p0.contains_key(mx) && p0[mx] == id);
                assert(ids_set.contains(id));
            } else {
                if ids_set.contains(id) {
                    let k = choose|k: Seq<char>| subtree_in(t0, old_root@).contains(k) && p0.contains_key(k) && p0[k] == id;
                    let x = choose|x: int| 0 <= x < strs(moved).len() && strs(moved)[x] == k;
                    assert(moved@[x]@ == k);
                    assert(targets@[x]@ == retarget(k, old_root@, new_root@));
                    assert(ids@[x]@ == id);
                }
            }
        }
        assert(id_to_path.as_map() =~= want_i);
    }
    Ok(())
}

/// Apply a modification change.
fn apply_modification(
    tree: &mut PathMap<DriveFile>,
    path_to_id: &mut PathMap<String>,
    id_to_path: &mut PathMap<String>,
    fid: &str,
    file: Option<&DriveFile>,
) -> (r: Result<(), AppError>)
    requires
        old(tree).wf(),
        old(path_to_id).wf(),
        old(id_to_path).wf(),
        linked(candidate_of(*old(tree), *old(path_to_id), *old(id_to_path))),
    ensures
        final(tree).wf(),
        final(path_to_id).wf(),
        final(id_to_path).wf(),
        match modification(candidate_of(*old(tree), *old(path_to_id), *old(id_to_path)), fid@,
            match file { Some(f) => Some(*f), None => None }) {
            Ok(c) => r is Ok && candidate_of(*final(tree), *final(path_to_id), *final(id_to_path)) == c,
            Err(Some(m)) => r matches Err(e) && e is Generic && e.message_view() == m,
            Err(None) => r matches Err(e) && e is Generic,
        },
{
    let f = match file {
        None => return Err(AppError::generic(concat("非删除 Change 缺少完整文件：", fid).as_str())),
        Some(f) => f,
    };
    if !is_valid_segment(f.name.as_str()) {
        return Err(AppError::generic(concat("非法路径段：", f.name.as_str()).as_str()));
    }
    let parents = match &f.parent_folder {
        None => {
            let mut m = concat("Change ", fid);
            push_str(&mut m, " 缺少 parentFolder");
            return Err(AppError::generic(m.as_str()));
        },
        Some(ps) => ps,
    };
    if parents.len() != 1 || !crate::action_filters::is_not_blank(parents[0].as_str()) {
        let mut m = concat("Change ", fid);
        push_str(&mut m, " 的多父目录/空父目录语义不受支持");
        return Err(AppError::generic(m.as_str()));
    }
    let parent_id = &parents[0];
    if str_equal(parent_id.as_str(), fid) {
        return Err(AppError::generic("Change 的 parentFolder 指向自身"));
    }
    let parent_path = match id_to_path.get(parent_id.as_str()) {
        None => {
            let mut m = concat("Change ", fid);
            push_str(&mut m, " 的 parentFolder ");
            push_str(&mut m, parent_id.as_str());
            push_str(&mut m, " 无法映射到可信路径");
            return Err(AppError::generic(m.as_str()));
        },
        Some(p) => p.clone(),
    };
    let desired = if parent_path.unicode_len() == 0 {
        f.name.clone()
    } else {
        let mut d = concat(parent_path.as_str(), "/");
        push_str(&mut d, f.name.as_str());
        d
    };
    match id_to_path.get(fid) {
        Some(existing) => {
            let existing = existing.clone();
            if existing.unicode_len() == 0 {
                return Err(AppError::generic("Changes 不支持修改云盘根目录"));
            }
            if !str_equal(existing.as_str(), desired.as_str()) {
                if crate::paths::is_strict_descendant(desired.as_str(), existing.as_str()) {
                    return Err(AppError::generic("Change 试图把目录移动到自身子树"));
                }
                match rekey_candidate_subtree(tree, path_to_id, id_to_path, existing.as_str(), desired.as_str()) {
                    Ok(()) => {},
                    Err(e) => return Err(e),
                }
            }
        },
        None => {
            if let Some(existing_id) = path_to_id.get(desired.as_str()) {
                if !str_equal(existing_id.as_str(), fid) {
                    return Err(AppError::generic(concat("Change 目标路径冲突：", desired.as_str()).as_str()));
                }
            }
        },
    }
    tree.insert(desired.clone(), f.duplicate());
    path_to_id.insert(desired.clone(), fid.to_owned());
    id_to_path.insert(fid.to_owned(), desired);
    Ok(())
}

/// A removal keeps the candidate linked.
pub proof fn removal_keeps_linked(c: Candidate, fid: Seq<char>)
    requires
        linked(c),
    ensures
        removal(c, fid) matches Ok(r) ==> linked(r),
{
    if c.2.contains_key(fid) && c.2[fid].len() > 0 {
        let gone = subtree_in(c.0, c.2[fid]);
        let r = removal(c, fid)->Ok_0;
        assert(r.0.dom() =~= r.1.dom());
        assert forall|k: Seq<char>| #[trigger] r.1.contains_key(k) implies r.2.contains_key(r.1[k]) && r.2[r.1[k]] == k by {
            if ids_at(c.1, gone).contains(c.1[k]) {
                let k2 = choose|k2: Seq<char>| gone.contains(k2) && c.1.contains_key(k2) && c.1[k2] == c.1[k];
                assert(k2 == k);
            }
        }
        assert forall|id: Seq<char>| #[trigger] r.2.contains_key(id) implies
            r.2[id].len() == 0 || (r.1.contains_key(r.2[id]) && r.1[r.2[id]] == id) by {
            if c.2[id].len() > 0 && gone.contains(c.2[id]) {
                assert(ids_at(c.1, gone).contains(id));
            }
        }
    }
}

/// Moving a subtree keeps the candidate linked, and the moved root keeps its id.
pub proof fn rekey_keeps_linked(c: Candidate, old: Seq<char>, new: Seq<char>)
    requires
        linked(c),
        old.len() > 0,
    ensures
        rekey(c, old, new) matches Ok(Some(r)) ==> linked(r)
            && (c.1.contains_key(old) ==> r.1.contains_key(retarget(old, old, new)) && r.1[retarget(old, old, new)] == c.1[old]),
{
    let moved = subtree_in(c.0, old);
    if rekey(c, old, new) is Ok && rekey(c, old, new)->Ok_0 is Some {
        let r = rekey(c, old, new)->Ok_0->0;
        let ids = ids_at(c.1, moved);
        assert(r.0.dom() =~= r.1.dom());
        assert forall|a: Seq<char>, b: Seq<char>| #[trigger] r.1.contains_key(a) && #[trigger] r.1.contains_key(b) && a != b
            implies r.1[a] != r.1[b] by {
            let sa = if arrives(c.0, a, old, new) { retarget(a, new, old) } else { a };
            let sb = if arrives(c.0, b, old, new) { retarget(b, new, old) } else { b };
            if arrives(c.0, a, old, new) {
                lemma_retarget(a, new, old);
            }
            if arrives(c.0, b, old, new) {
                lemma_retarget(b, new, old);
            }
            assert(c.1.contains_key(sa) && c.1.contains_key(sb));
            if sa == sb {
                if arrives(c.0, a, old, new) && arrives(c.0, b, old, new) {
                    assert(a == b);
                } else if arrives(c.0, a, old, new) {
                    assert(in_subtree(sa, old));
                } else {
                    assert(in_subtree(sb, old));
                }
            }
        }
        assert forall|k: Seq<char>| #[trigger] r.1.contains_key(k) implies r.2.contains_key(r.1[k]) && r.2[r.1[k]] == k by {
            if arrives(c.0, k, old, new) {
                let s0 = retarget(k, new, old);
                lemma_retarget(k, new, old);
                assert(moved.contains(s0));
                assert(ids.contains(c.1[s0]));
                assert(c.2[c.1[s0]] == s0);
            } else {
                if ids.contains(c.1[k]) {
                    let k2 = choose|k2: Seq<char>| moved.contains(k2) && c.1.contains_key(k2) && c.1[k2] == c.1[k];
                    assert(k2 == k);
                }
            }
        }
        assert forall|id: Seq<char>| #[trigger] r.2.contains_key(id) implies
            r.2[id].len() == 0 || (r.1.contains_key(r.2[id]) && r.1[r.2[id]] == id) by {
            let s0 = c.2[id];
            if ids.contains(id) && in_subtree(s0, old) {
                assert(s0.len() > 0);
                lemma_retarget(s0, old, new);
                let k = retarget(s0, old, new);
                assert(c.0.contains_key(s0));
                assert(arrives(c.0, k, old, new));
            } else if s0.len() > 0 {
                assert(c.1.contains_key(s0) && c.1[s0] == id);
                if in_subtree(s0, old) {
                    assert(moved.contains(s0));
                    assert(ids.contains(id));
                }
                if arrives(c.0, s0, old, new) {
                    let m = retarget(s0, new, old);
                    lemma_retarget(s0, new, old);
                    assert(moved.contains(m));
                    assert(c.0.contains_key(retarget(m, old, new)) && !in_subtree(retarget(m, old, new), old));
                }
            }
        }
        if c.1.contains_key(old) {
            lemma_retarget(old, old, new);
            assert(arrives(c.0, retarget(old, old, new), old, new));
        }
    }
}

/// Putting a file at `desired` keeps a linked candidate linked when the path
/// index already has the file's id at `desired` or nowhere.
proof fn placing_keeps_linked(p: Candidate, fid: Seq<char>, desired: Seq<char>, f: DriveFileView)
    requires
        linked(p),
        (p.1.contains_key(desired) && p.1[desired] == fid)
            || (!p.2.contains_key(fid) && !p.1.contains_key(desired)),
    ensures
        linked((p.0.insert(desired, f), p.1.insert(desired, fid), p.2.insert(fid, desired))),
{
    let r = (p.0.insert(desired, f), p.1.insert(desired, fid), p.2.insert(fid, desired));
    assert(r.0.dom() =~= r.1.dom());
    assert forall|b: Seq<char>| p.1.contains_key(b) && b != desired implies p.1[b] != fid by {
        if p.1[b] == fid {
            assert(p.2[p.1[b]] == b);
            if p.1.contains_key(desired) {
                assert(p.2[p.1[desired]] == desired);
            }
        }
    }
    assert forall|a: Seq<char>, b: Seq<char>| #[trigger] r.1.contains_key(a) && #[trigger] r.1.contains_key(b) && a != b
        implies r.1[a] != r.1[b] by {
        if a != desired && b != desired {
            assert(p.1[a] != p.1[b]);
        }
    }
    assert forall|id: Seq<char>| #[trigger] r.2.contains_key(id) implies
        r.2[id].len() == 0 || (r.1.contains_key(r.2[id]) && r.1[r.2[id]] == id) by {
        if id != fid && p.2[id].len() > 0 {
            assert(p.1.contains_key(p.2[id]) && p.1[p.2[id]] == id);
            if p.2[id] == desired {
                assert(p.1[desired] == id);
            }
        }
    }
}

/// A modification keeps the candidate linked.
pub proof fn modification_keeps_linked(c: Candidate, fid: Seq<char>, file: Option<DriveFile>)
    requires
        linked(c),
    ensures
        modification(c, fid, file) matches Ok(r) ==> linked(r),
{
    if modification(c, fid, file) is Ok {
        let f = file->0;
        let parent = sole_parent(f)->0;
        let desired = child_path(c.2[parent], f.name@);
        if c.2.contains_key(fid) {
            let existing = c.2[fid];
            assert(c.1.contains_key(existing) && c.1[existing] == fid);
            if existing == desired {
                placing_keeps_linked(c, fid, desired, f@);
            } else {
                rekey_keeps_linked(c, existing, desired);
                let moved = rekey(c, existing, desired)->Ok_0->0;
                lemma_retarget(existing, existing, desired);
                assert(retarget(existing, existing, desired) =~= desired);
                placing_keeps_linked(moved, fid, desired, f@);
            }
        } else {
            if c.1.contains_key(desired) {
                assert(c.2[c.1[desired]] == desired);
            }
            placing_keeps_linked(c, fid, desired, f@);
        }
    }
}

/// Every change keeps the candidate linked.
pub proof fn change_keeps_linked(c: Candidate, change: Change)
    requires
        linked(c),
    ensures
        change_step(c, change) matches Ok(r) ==> linked(r),
{
    match change.kind {
        ChangeKind::Removed => removal_keeps_linked(c, change.file_id@),
        ChangeKind::Modified => modification_keeps_linked(c, change.file_id@, change.file),
    }
}

/// The root folder's id is not an id of the path index.
pub open spec fn root_apart(p: Map<Seq<char>, Seq<char>>, root: Option<Seq<char>>) -> bool {
    match root {
        Some(r) => crate::action_filters::not_blank(r) ==>
            forall|k: Seq<char>| #[trigger] p.contains_key(k) ==> p[k] != r,
        None => true,
    }
}

/// The id index built from a valid path index is linked to it.
proof fn id_index_linked(t: Map<Seq<char>, DriveFileView>, p: Map<Seq<char>, Seq<char>>, root: Option<Seq<char>>)
    requires
        t.dom() == p.dom(),
        injective(p),
        root_apart(p, root),
    ensures
        linked((t, p, id_index(p, root))),
{
    let i = id_index(p, root);
    assert forall|k: Seq<char>| #[trigger] p.contains_key(k) implies i.contains_key(p[k]) && i[p[k]] == k by {
        let k2 = choose|k2: Seq<char>| p.contains_key(k2) && p[k2] == p[k];
        if k2 != k {
            assert(p[k2] != p[k]);
        }
    }
    assert forall|id: Seq<char>| #[trigger] i.contains_key(id) implies
        i[id].len() == 0 || (p.contains_key(i[id]) && p[i[id]] == id) by {
        if !(root matches Some(r) && crate::action_filters::not_blank(r) && r == id) {
            let k = choose|k: Seq<char>| p.contains_key(k) && p[k] == id;
        }
    }
}

/// Once a change fails, the whole batch fails with its error.
proof fn failure_sticks(c: Candidate, changes: Seq<Change>, i: int, n: int)
    requires
        0 <= i <= n,
        apply_upto(c, changes, i) is Err,
    ensures
        apply_upto(c, changes, n) == apply_upto(c, changes, i),
    decreases n - i,
{
    if n > i {
        failure_sticks(c, changes, i, n - 1);
    }
}

/// Apply the change feed to a candidate tree and path index of a trusted
/// checkpoint, in order; the first change that cannot be placed safely fails
/// the whole batch (the caller then discards the candidate).
pub fn apply_changes_to_candidate(
    tree: &mut PathMap<DriveFile>,
    path_to_id: &mut PathMap<String>,
    root_folder_id: Option<&str>,
    changes: &Vec<Change>,
) -> (r: Result<(), AppError>)
    requires
        old(tree).wf(),
        old(path_to_id).wf(),
        old(tree).as_map().dom() == old(path_to_id).as_map().dom(),
        injective(old(path_to_id).as_map()),
        root_apart(old(path_to_id).as_map(), match root_folder_id { Some(s) => Some(s@), None => None }),
    ensures
        final(tree).wf(),
        final(path_to_id).wf(),
        match apply_upto((old(tree).as_map(), old(path_to_id).as_map(),
            id_index(old(path_to_id).as_map(), match root_folder_id { Some(s) => Some(s@), None => None })),
            changes@, changes@.len() as int) {
            Ok(c) => r is Ok && final(tree).as_map() == c.0 && final(path_to_id).as_map() == c.1,
            Err(Some(m)) => r matches Err(e) && e is Generic && e.message_view() == m,
            Err(None) => r matches Err(e) && e is Generic,
        },
{
    let ghost root = match root_folder_id { Some(s) => Some(s@), None => None };
    let mut id_to_path = build_id_index(path_to_id, root_folder_id);
    let ghost c0: Candidate = (tree.as_map(), path_to_id.as_map(), id_to_path.as_map());
    proof {
        id_index_linked(tree.as_map(), path_to_id.as_map(), root);
    }
    let mut i: usize = 0;
    while i < changes.len()
        invariant
            tree.wf(),
            path_to_id.wf(),
            id_to_path.wf(),
            i <= changes@.len(),
            linked(candidate_of(*tree, *path_to_id, id_to_path)),
            root == match root_folder_id { Some(s) => Some(s@), None => None },
            c0 == (old(tree).as_map(), old(path_to_id).as_map(), id_index(old(path_to_id).as_map(), root)),
            apply_upto(c0, changes@, i as int) == Ok::<Candidate, Option<Seq<char>>>(candidate_of(*tree, *path_to_id, id_to_path)),
        decreases changes@.len() - i,
    {
        let change = &changes[i];
        let ghost before = candidate_of(*tree, *path_to_id, id_to_path);
        proof {
            change_keeps_linked(before, *change);
        }
        let step = match change.kind {
            ChangeKind::Removed => apply_removal(tree, path_to_id, &mut id_to_path, change.file_id.as_str()),
            ChangeKind::Modified => {
                let file: Option<&DriveFile> = match &change.file {
                    Some(f) => Some(f),
                    None => None,
                };
                apply_modification(tree, path_to_id, &mut id_to_path, change.file_id.as_str(), file)
            },
        };
        match step {
            Ok(()) => {},
            Err(e) => {
                proof {
                    assert(apply_upto(c0, changes@, i as int + 1) == change_step(before, changes@[i as int]));
                    failure_sticks(c0, changes@, i as int + 1, changes@.len() as int);
                }
                return Err(e);
            },
        }
        i = i + 1;
    }
    Ok(())
}

/// Applying the change feed keeps the tree and its two indexes consistent:
/// the same paths in the tree and the path index, one path per id, and the
/// id index the inverse of the path index.
pub proof fn change_feed_keeps_linked(c: Candidate, changes: Seq<Change>, n: int)
    requires
        linked(c),
    ensures
        apply_upto(c, changes, n) matches Ok(r) ==> linked(r),
    decreases n,
{
    if n > 0 {
        change_feed_keeps_linked(c, changes, n - 1);
        if apply_upto(c, changes, n - 1) is Ok {
            change_keeps_linked(apply_upto(c, changes, n - 1)->Ok_0, changes[n - 1]);
        }
    }
}

} // verus!
