//! Trusted cloud-tree checkpoints: the committed tree, its path index and the
//! change cursor, and the discovery of the drive's root folder id.

use vstd::prelude::*;
use crate::action_filters::{is_not_blank, not_blank};
use crate::error::AppError;
use crate::model::{opt_str, opt_strs, strs, DriveFile, DriveFileView};
use crate::path_map::PathMap;

verus! {

/// A committed cloud checkpoint.
#[derive(Debug)]
pub struct CloudTreeCache {
    pub root_folder_id: Option<String>,
    pub tree: PathMap<DriveFile>,
    pub path_to_id: PathMap<String>,
    /// The change cursor committed together with the tree and the index.
    pub cursor: Option<String>,
    /// The candidate was applied completely.
    pub complete: bool,
}

/// No two tree entries share a fileId.
pub open spec fn ids_unique(tree: PathMap<DriveFile>) -> bool {
    forall|i: int, j: int| 0 <= i < j < tree.size() ==> tree.value_at(i).id != tree.value_at(j).id
}

/// Every tree entry has a non-empty path, a non-blank fileId and the same id
/// in the path index.
pub open spec fn tree_entries_indexed(tree: Map<Seq<char>, DriveFileView>, index: Map<Seq<char>, Seq<char>>) -> bool {
    forall|p: Seq<char>| #[trigger] tree.contains_key(p) ==> p.len() > 0 && not_blank(tree[p].id)
        && index.contains_key(p) && index[p] == tree[p].id
}

/// Every index entry points at the root (empty path) or at the tree entry of
/// its path.
pub open spec fn index_entries_backed(
    tree: Map<Seq<char>, DriveFileView>,
    index: Map<Seq<char>, Seq<char>>,
    root: Option<Seq<char>>,
) -> bool {
    forall|p: Seq<char>| #[trigger] index.contains_key(p) ==> if p.len() == 0 {
        root == Some(index[p])
    } else {
        tree.contains_key(p) && tree[p].id == index[p]
    }
}

/// The parts of a checkpoint make it trustworthy.
pub open spec fn trusted_parts(
    complete: bool,
    cursor: Option<Seq<char>>,
    tree: PathMap<DriveFile>,
    index: Map<Seq<char>, Seq<char>>,
    root: Option<Seq<char>>,
) -> bool {
    &&& complete
    &&& (cursor matches Some(c) && not_blank(c))
    &&& ids_unique(tree)
    &&& tree_entries_indexed(tree.as_map(), index)
    &&& index_entries_backed(tree.as_map(), index, root)
}

/// The path index of a new checkpoint: the given one, plus the root id under
/// the empty path when a root is known and the empty path is not indexed.
pub open spec fn index_with_root(index: Map<Seq<char>, Seq<char>>, root: Option<Seq<char>>) -> Map<Seq<char>, Seq<char>> {
    match root {
        Some(r) => if index.contains_key(Seq::<char>::empty()) { index } else { index.insert(Seq::<char>::empty(), r) },
        None => index,
    }
}

impl CloudTreeCache {
    /// Build a complete candidate checkpoint and check that it can be trusted.
    pub fn new_trusted(
        root_folder_id: Option<String>,
        tree: PathMap<DriveFile>,
        path_to_id: PathMap<String>,
        cursor: String,
    ) -> (r: Result<CloudTreeCache, AppError>)
        requires
            tree.wf(),
            path_to_id.wf(),
        ensures
            r is Ok <==> trusted_parts(true, Some(cursor@), tree,
                index_with_root(path_to_id.as_map(), opt_str(root_folder_id)), opt_str(root_folder_id)),
            r matches Err(e) ==> e is Generic,
            r matches Ok(c) ==> c.wf() && c.trusted() && c.complete && opt_str(c.cursor) == Some(cursor@)
                && opt_str(c.root_folder_id) == opt_str(root_folder_id)
                && c.tree == tree
                && c.path_to_id.as_map() == index_with_root(path_to_id.as_map(), opt_str(root_folder_id)),
    {
        let mut path_to_id = path_to_id;
        if let Some(root_id) = &root_folder_id {
            let empty = String::new();
            if !path_to_id.contains_key(empty.as_str()) {
                path_to_id.insert(empty, root_id.clone());
            }
        }
        let checkpoint = CloudTreeCache {
            root_folder_id,
            tree,
            path_to_id,
            cursor: Some(cursor),
            complete: true,
        };
        match checkpoint.validate_trusted() {
            Ok(()) => Ok(checkpoint),
            Err(e) => Err(e),
        }
    }

    /// The checkpoint may serve as the trusted remote state for deletion
    /// decisions: complete, with a non-blank cursor, unique ids, and a tree
    /// and path index that agree entry by entry.
    pub open spec fn trusted(self) -> bool {
        trusted_parts(self.complete, opt_str(self.cursor), self.tree, self.path_to_id.as_map(),
            opt_str(self.root_folder_id))
    }

    /// The two maps hold each path at most once.
    pub open spec fn wf(self) -> bool {
        self.tree.wf() && self.path_to_id.wf()
    }

    /// Check that the checkpoint can be trusted.
    pub fn validate_trusted(&self) -> (r: Result<(), AppError>)
        requires
            self.wf(),
        ensures
            r is Ok <==> self.trusted(),
            r matches Err(e) ==> e is Generic,
            !self.complete ==> (r matches Err(AppError::Generic { message })
                && message@ == "云端 checkpoint 未完整提交"@),
            self.complete && !(self.cursor matches Some(c) && not_blank(c@)) ==>
                (r matches Err(AppError::Generic { message })
                && message@ == "云端 checkpoint 缺少有效 cursor"@),
    {
        if !self.complete {
            return Err(AppError::generic("云端 checkpoint 未完整提交"));
        }
        let cursor_ok = match &self.cursor {
            Some(c) => is_not_blank(c.as_str()),
            None => false,
        };
        if !cursor_ok {
            return Err(AppError::generic("云端 checkpoint 缺少有效 cursor"));
        }
        let n = self.tree.len();
        let mut i: usize = 0;
        while i < n
            invariant
                self.wf(),
                self.complete,
                self.cursor matches Some(c) && not_blank(c@),
                n == self.tree.size(),
                i <= n,
                forall|a: int, b: int| 0 <= a < b < i ==> self.tree.value_at(a).id != self.tree.value_at(b).id,
                forall|a: int| #![trigger self.tree.key_at(a)] 0 <= a < i ==> {
                    let p = self.tree.key_at(a);
                    &&& p.len() > 0
                    &&& not_blank(self.tree.value_at(a).id)
                    &&& self.path_to_id.as_map().contains_key(p)
                    &&& self.path_to_id.as_map()[p] == self.tree.value_at(a).id
                },
            decreases n - i,
        {
            let path = self.tree.key(i);
            let file = self.tree.value(i);
            if path.unicode_len() == 0 || !is_not_blank(file.id.as_str()) {
                proof {
                    self.tree.lemma_lookup(i as int);
                }
                return Err(AppError::generic("云端 checkpoint 包含空路径或空 fileId"));
            }
            let mut j: usize = 0;
            while j < i
                invariant
                    self.wf(),
                    self.complete,
                    self.cursor matches Some(c) && not_blank(c@),
                    i < n,
                    n == self.tree.size(),
                    j <= i,
                    file@ == self.tree.value_at(i as int),
                    forall|b: int| 0 <= b < j ==> self.tree.value_at(b).id != self.tree.value_at(i as int).id,
                decreases i - j,
            {
                if crate::paths::str_equal(self.tree.value(j).id.as_str(), file.id.as_str()) {
                    return Err(AppError::generic("云端 checkpoint 中 fileId 重复"));
                }
                j = j + 1;
            }
            let indexed = match self.path_to_id.get(path.as_str()) {
                Some(id) => crate::paths::str_equal(id.as_str(), file.id.as_str()),
                None => false,
            };
            if !indexed {
                proof {
                    self.tree.lemma_lookup(i as int);
                }
                return Err(AppError::generic("云端 checkpoint 的路径索引不一致"));
            }
            i = i + 1;
        }
        proof {
            assert forall|p: Seq<char>| #[trigger] self.tree.as_map().contains_key(p) implies
                p.len() > 0 && not_blank(self.tree.as_map()[p].id)
                && self.path_to_id.as_map().contains_key(p)
                && self.path_to_id.as_map()[p] == self.tree.as_map()[p].id by {
                let a = self.tree.index_of_key(p);
                assert(self.tree.keys()[a] == p);
                self.tree.lemma_lookup(a);
            }
        }
        let m = self.path_to_id.len();
        let mut k: usize = 0;
        while k < m
            invariant
                self.wf(),
                self.complete,
                self.cursor matches Some(c) && not_blank(c@),
                m == self.path_to_id.size(),
                k <= m,
                forall|a: int| #![trigger self.path_to_id.key_at(a)] 0 <= a < k ==> {
                    let p = self.path_to_id.key_at(a);
                    let id = self.path_to_id.value_at(a);
                    if p.len() == 0 {
                        opt_str(self.root_folder_id) == Some(id)
                    } else {
                        self.tree.as_map().contains_key(p) && self.tree.as_map()[p].id == id
                    }
                },
            decreases m - k,
        {
            let path = self.path_to_id.key(k);
            let id = self.path_to_id.value(k);
            if path.unicode_len() == 0 {
                let root_ok = match &self.root_folder_id {
                    Some(r) => crate::paths::str_equal(r.as_str(), id.as_str()),
                    None => false,
                };
                if !root_ok {
                    proof {
                        self.path_to_id.lemma_lookup(k as int);
                    }
                    return Err(AppError::generic("云端 checkpoint 的根目录索引不一致"));
                }
            } else {
                let backed = match self.tree.get(path.as_str()) {
                    Some(f) => crate::paths::str_equal(f.id.as_str(), id.as_str()),
                    None => false,
                };
                if !backed {
                    proof {
                        self.path_to_id.lemma_lookup(k as int);
                    }
                    return Err(AppError::generic("云端 checkpoint 包含孤立路径索引"));
                }
            }
            k = k + 1;
        }
        proof {
            assert forall|p: Seq<char>| #[trigger] self.path_to_id.as_map().contains_key(p) implies
                (if p.len() == 0 {
                    opt_str(self.root_folder_id) == Some(self.path_to_id.as_map()[p])
                } else {
                    self.tree.as_map().contains_key(p) && self.tree.as_map()[p].id == self.path_to_id.as_map()[p]
                }) by {
                let a = self.path_to_id.index_of_key(p);
                assert(self.path_to_id.keys()[a] == p);
                self.path_to_id.lemma_lookup(a);
            }
        }
        Ok(())
    }
}


/// All parent folder ids of the files, in order.
pub open spec fn parent_ids(files: Seq<DriveFile>) -> Seq<Seq<char>>
    decreases files.len(),
{
    if files.len() == 0 {
        Seq::empty()
    } else {
        parent_ids(files.drop_last()) + match opt_strs(files.last().parent_folder) {
            Some(ids) => ids,
            None => Seq::empty(),
        }
    }
}

/// Number of occurrences of `x` in `s`.
pub open spec fn occurrences(s: Seq<Seq<char>>, x: Seq<char>) -> nat
    decreases s.len(),
{
    if s.len() == 0 {
        0
    } else {
        occurrences(s.drop_last(), x) + if s.last() == x { 1nat } else { 0nat }
    }
}

/// `x` occurs, and more often than any other value.
pub open spec fn unique_most_common(s: Seq<Seq<char>>, x: Seq<char>) -> bool {
    occurrences(s, x) > 0 && forall|y: Seq<char>| y != x ==> #[trigger] occurrences(s, y) < occurrences(s, x)
}

/// A value that occurs is an element.
proof fn lemma_occurs_in(s: Seq<Seq<char>>, y: Seq<char>)
    ensures
        occurrences(s, y) > 0 ==> s.contains(y),
        occurrences(s, y) <= s.len(),
    decreases s.len(),
{
    if s.len() > 0 {
        lemma_occurs_in(s.drop_last(), y);
        if occurrences(s.drop_last(), y) > 0 {
            let t = choose|t: int| 0 <= t < s.drop_last().len() && s.drop_last()[t] == y;
            assert(s[t] == y);
        } else if s.last() == y {
            assert(s[s.len() - 1] == y);
        }
    }
}

/// Occurrences in a concatenation add up.
proof fn lemma_occurrences_concat(a: Seq<Seq<char>>, b: Seq<Seq<char>>, x: Seq<char>)
    ensures
        occurrences(a + b, x) == occurrences(a, x) + occurrences(b, x),
    decreases b.len(),
{
    if b.len() == 0 {
        assert(a + b =~= a);
    } else {
        lemma_occurrences_concat(a, b.drop_last(), x);
        assert((a + b).drop_last() =~= a + b.drop_last());
        assert((a + b).last() == b.last());
    }
}

/// Dynamically find the real id of the drive's root folder: the parent id that
/// occurs most often among the root-level entries, if it is the only one with
/// that count; a tie fails closed.
pub fn detect_root_folder_id(files: &Vec<DriveFile>) -> (r: Option<String>)
    ensures
        r matches Some(id) ==> unique_most_common(parent_ids(files@), id@),
        r is None ==> !exists|x: Seq<char>| unique_most_common(parent_ids(files@), x),
{
    let mut flat: Vec<String> = Vec::new();
    let mut i: usize = 0;
    assert(files@.take(0) =~= Seq::<DriveFile>::empty());
    assert(strs(flat) =~= Seq::<Seq<char>>::empty());
    while i < files.len()
        invariant
            i <= files@.len(),
            strs(flat) == parent_ids(files@.take(i as int)),
        decreases files@.len() - i,
    {
        assert(files@.take(i as int + 1).drop_last() =~= files@.take(i as int));
        assert(files@.take(i as int + 1).last() == files@[i as int]);
        if let Some(parents) = &files[i].parent_folder {
            let mut k: usize = 0;
            let ghost base = strs(flat);
            while k < parents.len()
                invariant
                    k <= parents@.len(),
                    strs(flat) == base + strs(*parents).take(k as int),
            decreases parents@.len() - k,
            {
                let ghost before = strs(flat);
                flat.push(parents[k].clone());
                assert(strs(flat) =~= before.push(parents@[k as int]@));
                assert(strs(*parents).take(k as int + 1) =~= strs(*parents).take(k as int).push(parents@[k as int]@));
                assert(strs(flat) =~= base + strs(*parents).take(k as int + 1));
                k = k + 1;
            }
            assert(strs(*parents).take(parents@.len() as int) =~= strs(*parents));
        } else {
            assert(strs(flat) =~= strs(flat) + Seq::<Seq<char>>::empty());
        }
        i = i + 1;
    }
    assert(files@.take(files@.len() as int) =~= files@);
    let ghost s = strs(flat);
    let n = flat.len();
    if n == 0 {
        proof {
            assert forall|x: Seq<char>| !unique_most_common(s, x) by {
                assert(s.len() == 0);
            }
        }
        return None;
    }
    let mut counts: Vec<usize> = Vec::new();
    let mut j: usize = 0;
    while j < n
        invariant
            n == s.len(),
            s == strs(flat),
            j <= n,
            counts@.len() == j,
            forall|t: int| 0 <= t < j ==> counts@[t] == occurrences(s, #[trigger] s[t]),
        decreases n - j,
    {
        let mut c: usize = 0;
        let mut k: usize = 0;
        assert(s.take(0) =~= Seq::<Seq<char>>::empty());
        while k < n
            invariant
                n == s.len(),
                s == strs(flat),
                j < n,
                k <= n,
                c == occurrences(s.take(k as int), s[j as int]),
                c <= k,
            decreases n - k,
        {
            assert(s.take(k as int + 1).drop_last() =~= s.take(k as int));
            if crate::paths::str_equal(flat[k].as_str(), flat[j].as_str()) {
                c = c + 1;
            }
            k = k + 1;
        }
        assert(s.take(n as int) =~= s);
        counts.push(c);
        j = j + 1;
    }
    let mut best: usize = 0;
    let mut t: usize = 1;
    while t < n
        invariant
            n == s.len(),
            n == counts@.len(),
            best < n,
            1 <= t <= n,
            forall|w: int| 0 <= w < n ==> counts@[w] == occurrences(s, #[trigger] s[w]),
            forall|u: int| 0 <= u < t ==> counts@[u] <= counts@[best as int],
        decreases n - t,
    {
        if counts[t] > counts[best] {
            best = t;
        }
        t = t + 1;
    }
    let mut u: usize = 0;
    while u < n
        invariant
            n == s.len(),
            s == strs(flat),
            s == parent_ids(files@),
            n == counts@.len(),
            best < n,
            u <= n,
            forall|t: int| 0 <= t < n ==> counts@[t] == occurrences(s, #[trigger] s[t]),
            forall|t: int| 0 <= t < n ==> counts@[t] <= counts@[best as int],
            forall|w: int| 0 <= w < u ==> s[w] == s[best as int] || counts@[w] < counts@[best as int],
        decreases n - u,
    {
        if counts[u] == counts[best] && !crate::paths::str_equal(flat[u].as_str(), flat[best].as_str()) {
            proof {
                assert forall|x: Seq<char>| !unique_most_common(s, x) by {
                    if unique_most_common(s, x) {
                        assert(counts@[u as int] == occurrences(s, s[u as int]));
                        assert(counts@[best as int] == occurrences(s, s[best as int]));
                        if x == s[best as int] {
                            assert(occurrences(s, s[u as int]) < occurrences(s, x));
                        } else {
                            assert(occurrences(s, s[best as int]) < occurrences(s, x));
                            lemma_occurs_in(s, x);
                            let w = choose|w: int| 0 <= w < s.len() && s[w] == x;
                            assert(counts@[w] == occurrences(s, s[w]));
                        }
                    }
                }
            }
            return None;
        }
        u = u + 1;
    }
    proof {
        let x = s[best as int];
        assert(counts@[best as int] == occurrences(s, x));
        lemma_occurs_in(s, x);
        assert(occurrences(s, x) > 0) by {
            if occurrences(s, x) == 0 {
                assert forall|w: int| 0 <= w < n implies counts@[w] == 0 by {}
            }
            lemma_count_positive(s, best as int);
        }
        assert forall|y: Seq<char>| y != x implies #[trigger] occurrences(s, y) < occurrences(s, x) by {
            lemma_occurs_in(s, y);
            if occurrences(s, y) > 0 {
                let w = choose|w: int| 0 <= w < s.len() && s[w] == y;
                assert(counts@[w] == occurrences(s, s[w]));
            }
        }
    }
    Some(flat[best].clone())
}

/// An element occurs at least once.
proof fn lemma_count_positive(s: Seq<Seq<char>>, i: int)
    requires
        0 <= i < s.len(),
    ensures
        occurrences(s, s[i]) > 0,
    decreases s.len(),
{
    if i < s.len() - 1 {
        lemma_count_positive(s.drop_last(), i);
        assert(s.drop_last()[i] == s[i]);
    }
}

/// A strictly complete scan of an empty drive is a legitimate checkpoint:
/// an empty tree with a non-blank cursor is trusted, whatever the root
/// folder id (the number of entries is no trust condition).
pub proof fn empty_tree_is_trusted(tree: PathMap<DriveFile>, cursor: Seq<char>, root: Option<Seq<char>>)
    requires
        tree.keys().len() == 0,
        not_blank(cursor),
    ensures
        trusted_parts(true, Some(cursor), tree, index_with_root(Map::empty(), root), root),
{
    assert(tree.as_map() =~= Map::empty()) by {
        assert forall|k: Seq<char>| !tree.keys().contains(k) by {}
    }
}

} // verus!
