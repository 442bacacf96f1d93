//! The breadth-first scan that builds a full cloud tree candidate.
//!
//! The scanner lists folders (a batch at a time) and hands each listing, or
//! its failure, to the scan. The scan places every entry below its folder's
//! path in the tree and the path index, queues each folder once, learns the
//! drive's root folder id from the first root listing, skips the drive's
//! internal files, and gives a folder two more tries before the whole scan
//! fails: a tree with a missing subtree is never returned.

use vstd::prelude::*;
use crate::changes::{child_path, is_valid_segment, msg_bad_name, valid_segment};
use crate::cloud_tree::{detect_root_folder_id, parent_ids, unique_most_common};
use crate::error::AppError;
use crate::model::{opt_str, DriveFile, DriveFileView};
use crate::path_map::PathMap;
use crate::paths::{has_prefix, starts_with};

verus! {

/// Prefix of the drive's internal files, which the tree leaves out.
pub open spec fn internal_prefix() -> Seq<char> {
    ".hwcloud_"@
}

/// A folder waiting to be listed: its id (none for the drive root), its
/// path, and how many times its listing failed.
#[derive(Debug)]
pub struct ScanNode {
    pub folder_id: Option<String>,
    pub path: String,
    pub retries: u32,
}

/// Mathematical view of [`ScanNode`].
pub struct ScanNodeView {
    pub folder_id: Option<Seq<char>>,
    pub path: Seq<char>,
    pub retries: u32,
}

impl View for ScanNode {
    type V = ScanNodeView;

    open spec fn view(&self) -> ScanNodeView {
        ScanNodeView { folder_id: opt_str(self.folder_id), path: self.path@, retries: self.retries }
    }
}

/// A scan in progress.
#[derive(Debug)]
pub struct CloudScan {
    pub tree: PathMap<DriveFile>,
    pub path_to_id: PathMap<String>,
    pub root_folder_id: Option<String>,
    /// Ids of the folders queued so far (the value is unused).
    pub visited: PathMap<bool>,
    /// Folders waiting to be listed, first in first out.
    pub queue: Vec<ScanNode>,
}

/// What the scan holds, as mathematical values.
pub struct ScanState {
    pub tree: Map<Seq<char>, DriveFileView>,
    pub index: Map<Seq<char>, Seq<char>>,
    pub visited: Set<Seq<char>>,
    pub queue: Seq<ScanNodeView>,
}

impl CloudScan {
    /// The scan's maps are well formed.
    pub open spec fn wf(self) -> bool {
        self.tree.wf() && self.path_to_id.wf() && self.visited.wf()
    }

    /// What the scan holds.
    pub open spec fn state(self) -> ScanState {
        ScanState {
            tree: self.tree.as_map(),
            index: self.path_to_id.as_map(),
            visited: self.visited.as_map().dom(),
            queue: self.queue@.map_values(|n: ScanNode| n@),
        }
    }
}

/// The tree and the path index hold the same paths, with the file ids.
pub open spec fn scan_consistent(s: ScanState) -> bool {
    &&& s.tree.dom() == s.index.dom()
    &&& forall|k: Seq<char>| #[trigger] s.index.contains_key(k) ==> s.index[k] == s.tree[k].id
}

/// A drive-internal file.
pub open spec fn internal(f: DriveFileView) -> bool {
    has_prefix(f.name, internal_prefix())
}

/// The state after placing one listed entry below `parent`.
pub open spec fn place_entry(s: ScanState, parent: Seq<char>, f: DriveFileView) -> ScanState {
    if internal(f) {
        s
    } else {
        let path = child_path(parent, f.name);
        let fresh = f.is_folder() && !s.visited.contains(f.id);
        ScanState {
            tree: s.tree.insert(path, f),
            index: s.index.insert(path, f.id),
            visited: if fresh { s.visited.insert(f.id) } else { s.visited },
            queue: if fresh { s.queue.push(ScanNodeView { folder_id: Some(f.id), path, retries: 0 }) } else { s.queue },
        }
    }
}

/// The state after placing the first `n` entries of a listing of `parent`.
pub open spec fn place_listing(s: ScanState, parent: Seq<char>, files: Seq<DriveFileView>, n: int) -> ScanState
    decreases n,
{
    if n <= 0 {
        s
    } else {
        place_entry(place_listing(s, parent, files, n - 1), parent, files[n - 1])
    }
}

/// The position of the first entry, among the first `n`, that is no
/// internal file and whose name cannot stand as a path segment.
pub open spec fn first_bad_name(files: Seq<DriveFileView>, n: int) -> Option<int>
    decreases n,
{
    if n <= 0 {
        None
    } else {
        match first_bad_name(files, n - 1) {
            Some(i) => Some(i),
            None => if !internal(files[n - 1]) && !valid_segment(files[n - 1].name) { Some(n - 1) } else { None },
        }
    }
}

/// The views of the listed files.
pub open spec fn listing_view(files: Seq<DriveFile>) -> Seq<DriveFileView> {
    files.map_values(|f: DriveFile| f@)
}

/// The root folder id after the listing of `node`: learnt from the first
/// root listing, kept otherwise.
pub open spec fn root_after(before: Option<Seq<char>>, after: Option<Seq<char>>, node: ScanNodeView, files: Seq<DriveFile>) -> bool {
    if node.path.len() == 0 && before is None {
        &&& (after matches Some(id) ==> unique_most_common(parent_ids(files), id))
        &&& (after is None ==> !exists|x: Seq<char>| unique_most_common(parent_ids(files), x))
    } else {
        after == before
    }
}

/// The message of a scan that gave up on a folder.
pub open spec fn msg_scan_incomplete(path: Seq<char>, error: Seq<char>) -> Seq<char> {
    "云端树刷新不完整：目录 "@ + (if path.len() == 0 { "/"@ } else { path }) + " 重试耗尽："@ + error
}

/// The retry of a failed listing.
pub open spec fn retried(node: ScanNodeView) -> ScanNodeView {
    ScanNodeView { folder_id: node.folder_id, path: node.path, retries: (node.retries + 1) as u32 }
}

proof fn lemma_first_bad_sticks(files: Seq<DriveFileView>, k: int, n: int)
    requires
        0 <= k <= n,
        first_bad_name(files, k) is Some,
    ensures
        first_bad_name(files, n) == first_bad_name(files, k),
    decreases n - k,
{
    if n > k {
        lemma_first_bad_sticks(files, k, n - 1);
    }
}

proof fn lemma_place_step(s: ScanState, parent: Seq<char>, files: Seq<DriveFileView>, n: int)
    requires
        0 <= n,
    ensures
        place_listing(s, parent, files, n + 1) == place_entry(place_listing(s, parent, files, n), parent, files[n]),
{
}

impl CloudScan {
    /// A scan that starts at the drive root.
    pub fn start() -> (s: CloudScan)
        ensures
            s.wf(),
            s.state().tree.is_empty() && s.state().index.is_empty() && s.state().visited.is_empty(),
            s.state().queue == seq![ScanNodeView { folder_id: None, path: Seq::empty(), retries: 0 }],
            s.root_folder_id is None,
    {
        let mut queue: Vec<ScanNode> = Vec::new();
        queue.push(ScanNode { folder_id: None, path: String::new(), retries: 0 });
        let s = CloudScan {
            tree: PathMap::new(),
            path_to_id: PathMap::new(),
            root_folder_id: None,
            visited: PathMap::new(),
            queue,
        };
        assert(s.state().queue =~= seq![ScanNodeView { folder_id: None, path: Seq::empty(), retries: 0 }]);
        assert(s.state().tree =~= Map::empty());
        assert(s.state().index =~= Map::empty());
        assert(s.state().visited =~= Set::empty());
        s
    }

    /// Take up to `max` folders from the front of the queue.
    pub fn take_batch(&mut self, max: usize) -> (batch: Vec<ScanNode>)
        ensures
            final(self).tree == old(self).tree,
            final(self).path_to_id == old(self).path_to_id,
            final(self).visited == old(self).visited,
            final(self).root_folder_id == old(self).root_folder_id,
            batch@.len() == if max < old(self).queue@.len() { max as int } else { old(self).queue@.len() as int },
            batch@ == old(self).queue@.take(batch@.len() as int),
            final(self).queue@ == old(self).queue@.skip(batch@.len() as int),
    {
        let ghost q = self.queue@;
        let k = if max < self.queue.len() { max } else { self.queue.len() };
        let mut batch = self.queue.split_off(k);
        std::mem::swap(&mut batch, &mut self.queue);
        assert(batch@ =~= q.take(k as int));
        assert(self.queue@ =~= q.skip(k as int));
        batch
    }

    /// Place the listing of `node`: every entry but the drive's internal
    /// files goes below the node's path (a later entry at the same path
    /// replaces an earlier one), each folder not yet seen is queued, and the
    /// first root listing tells the root folder id. An entry whose name
    /// cannot stand as a path segment fails the scan.
    pub fn absorb_listing(&mut self, node: &ScanNode, files: &Vec<DriveFile>) -> (r: Result<(), AppError>)
        requires
            old(self).wf(),
        ensures
            final(self).wf(),
            match first_bad_name(listing_view(files@), files@.len() as int) {
                Some(i) => r matches Err(e) && e is Generic && e.message_view() == msg_bad_name(files@[i]@.name),
                None => r is Ok
                    && final(self).state() == place_listing(old(self).state(), node.path@, listing_view(files@), files@.len() as int)
                    && root_after(opt_str(old(self).root_folder_id), opt_str(final(self).root_folder_id), node@, files@),
            },
    {
        if node.path.unicode_len() == 0 && self.root_folder_id.is_none() {
            self.root_folder_id = detect_root_folder_id(files);
        }
        let ghost start = self.state();
        let ghost root = self.root_folder_id;
        proof {
            reveal_strlit(".hwcloud_");
        }
        let mut i: usize = 0;
        while i < files.len()
            invariant
                self.wf(),
                i <= files@.len(),
                self.root_folder_id == root,
                first_bad_name(listing_view(files@), i as int) is None,
                self.state() == place_listing(start, node.path@, listing_view(files@), i as int),
            decreases files@.len() - i,
        {
            let f = &files[i];
            let ghost before = self.state();
            proof {
                lemma_place_step(start, node.path@, listing_view(files@), i as int);
                assert(listing_view(files@)[i as int] == f@);
            }
            if !starts_with(f.name.as_str(), ".hwcloud_") {
                if !is_valid_segment(f.name.as_str()) {
                    assert(first_bad_name(listing_view(files@), i as int + 1) == Some(i as int));
                    proof {
                        lemma_first_bad_sticks(listing_view(files@), i as int + 1, files@.len() as int);
                    }
                    let m = crate::text::concat("非法路径段：", f.name.as_str());
                    return Err(AppError::generic(m.as_str()));
                }
                let path = if node.path.unicode_len() == 0 {
                    f.name.clone()
                } else {
                    node.path.clone().concat("/").concat(f.name.as_str())
                };
                proof {
                    reveal_strlit("/");
                    assert(path@ == child_path(node.path@, f@.name));
                }
                self.tree.insert(path.clone(), f.duplicate());
                self.path_to_id.insert(path.clone(), f.id.clone());
                if f.is_folder() && !self.visited.contains_key(f.id.as_str()) {
                    let ghost q = self.queue@;
                    self.visited.insert(f.id.clone(), true);
                    self.queue.push(ScanNode { folder_id: Some(f.id.clone()), path, retries: 0 });
                    proof {
                        assert(self.state().queue =~= before.queue.push(ScanNodeView { folder_id: Some(f@.id), path: child_path(node.path@, f@.name), retries: 0 }));
                    }
                }
                proof {
                    assert(self.state().tree =~= place_entry(before, node.path@, f@).tree);
                    assert(self.state().index =~= place_entry(before, node.path@, f@).index);
                    assert(self.state().visited =~= place_entry(before, node.path@, f@).visited);
                    assert(self.state().queue =~= place_entry(before, node.path@, f@).queue);
                }
            }
            i = i + 1;
        }
        Ok(())
    }

    /// Take note of a failed listing of `node`: it is queued again while it
    /// has failed fewer than three times; the third failure fails the scan.
    pub fn absorb_failure(&mut self, node: ScanNode, error: &str) -> (r: Result<(), AppError>)
        ensures
            final(self).tree == old(self).tree,
            final(self).path_to_id == old(self).path_to_id,
            final(self).visited == old(self).visited,
            final(self).root_folder_id == old(self).root_folder_id,
            node.retries < 2 ==> (r is Ok && final(self).state().queue == old(self).state().queue.push(retried(node@))),
            node.retries >= 2 ==> (r matches Err(e) && e is Generic
                && e.message_view() == msg_scan_incomplete(node.path@, error@)),
    {
        if node.retries < 2 {
            let ghost q = self.state().queue;
            self.queue.push(ScanNode { folder_id: node.folder_id, path: node.path, retries: node.retries + 1 });
            assert(self.state().queue =~= q.push(retried(node@)));
            Ok(())
        } else {
            let shown = if node.path.unicode_len() == 0 { "/".to_owned() } else { node.path.clone() };
            proof {
                reveal_strlit("/");
            }
            let m = "云端树刷新不完整：目录 ".to_owned().concat(shown.as_str()).concat(" 重试耗尽：").concat(error);
            Err(AppError::generic(m.as_str()))
        }
    }
}

/// Placing a listing keeps the tree and the path index holding the same
/// paths, with the file ids.
pub proof fn listing_keeps_scan_consistent(s: ScanState, parent: Seq<char>, files: Seq<DriveFileView>, n: int)
    requires
        scan_consistent(s),
    ensures
        scan_consistent(place_listing(s, parent, files, n)),
    decreases n,
{
    if n > 0 {
        listing_keeps_scan_consistent(s, parent, files, n - 1);
        let p = place_listing(s, parent, files, n - 1);
        let f = files[n - 1];
        if !internal(f) {
            let q = place_entry(p, parent, f);
            assert(q.tree.dom() =~= q.index.dom());
        }
    }
}

/// A folder is queued at most once: placing a listing queues only folders
/// not seen before, each under its id, and remembers them as seen.
pub proof fn listing_queues_new_folders_once(s: ScanState, parent: Seq<char>, files: Seq<DriveFileView>, n: int)
    requires
        forall|i: int| 0 <= i < s.queue.len() ==> (s.queue[i].folder_id matches Some(id) && s.visited.contains(id))
            || s.queue[i].folder_id is None,
        forall|i: int, j: int| 0 <= i < j < s.queue.len() && s.queue[i].folder_id is Some
            ==> s.queue[i].folder_id != s.queue[j].folder_id,
    ensures
        ({
            let t = place_listing(s, parent, files, n);
            &&& forall|i: int| 0 <= i < t.queue.len() ==> (t.queue[i].folder_id matches Some(id) && t.visited.contains(id))
                || t.queue[i].folder_id is None
            &&& forall|i: int, j: int| 0 <= i < j < t.queue.len() && t.queue[i].folder_id is Some
                ==> t.queue[i].folder_id != t.queue[j].folder_id
        }),
    decreases n,
{
    if n > 0 {
        listing_queues_new_folders_once(s, parent, files, n - 1);
        let p = place_listing(s, parent, files, n - 1);
        let f = files[n - 1];
        let t = place_entry(p, parent, f);
        if !internal(f) && f.is_folder() && !p.visited.contains(f.id) {
            assert forall|i: int, j: int| 0 <= i < j < t.queue.len() && t.queue[i].folder_id is Some
                implies t.queue[i].folder_id != t.queue[j].folder_id by {
                if j == p.queue.len() {
                    assert(t.queue[i] == p.queue[i]);
                } else {
                    assert(t.queue[i] == p.queue[i] && t.queue[j] == p.queue[j]);
                }
            }
            assert forall|i: int| 0 <= i < t.queue.len() implies (t.queue[i].folder_id matches Some(id) && t.visited.contains(id))
                || t.queue[i].folder_id is None by {
                if i < p.queue.len() {
                    assert(t.queue[i] == p.queue[i]);
                }
            }
        }
    }
}

} // verus!
