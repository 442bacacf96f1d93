//! Recognising local renames and moves by the stable file id that a file
//! carries in its extended attributes, so that they become one cloud move
//! instead of an upload plus a deletion.
//!
//! The caller reads the file system (types, extended attributes); these
//! functions decide what the readings mean and rewrite the plan.

use vstd::prelude::*;
use crate::action_filters::{is_not_blank, not_blank};
use crate::model::{opt_file, opt_str, DriveFile, DriveFileView, SyncAction, SyncActionType, SyncItem};
use crate::path_map::PathMap;
use crate::paths::{in_subtree, is_in_subtree, is_strict_descendant, parent_of, parent_path, str_equal, strict_descendant};
use crate::retain::{lemma_select_is_filter, retain_by_mask};
use crate::text::{concat, push_str};

verus! {

/// The action may be a renamed or moved file or folder: an upload of a new
/// file, a folder created locally, or the deletion of an orphaned placeholder,
/// none of them with a file id yet.
pub open spec fn rename_candidate(a: SyncAction) -> bool {
    &&& a.file_id is None
    &&& (a.action_type == SyncActionType::Upload
        || (a.action_type == SyncActionType::CreateFolder && a.cloud_file is None)
        || a.action_type == SyncActionType::DeleteFromLocal)
}

/// What the caller reads for a rename candidate.
pub struct RenameProbe {
    /// The local entry to inspect.
    pub local_path: String,
    /// It must be a directory (else a regular file), and not a symbolic link.
    pub expects_folder: bool,
}

/// The local entry to inspect for an action, when it may be a rename.
pub fn rename_probe(action: &SyncAction) -> (r: Option<RenameProbe>)
    ensures
        match r {
            Some(p) => rename_candidate(*action) && action.local_path == Some(p.local_path)
                && p.expects_folder == (action.action_type == SyncActionType::CreateFolder),
            None => !rename_candidate(*action) || action.local_path is None,
        },
{
    if action.file_id.is_some() {
        return None;
    }
    let expects_folder = match action.action_type {
        SyncActionType::CreateFolder => true,
        _ => false,
    };
    let candidate = match action.action_type {
        SyncActionType::Upload => true,
        SyncActionType::CreateFolder => action.cloud_file.is_none(),
        SyncActionType::DeleteFromLocal => true,
        _ => false,
    };
    if !candidate {
        return None;
    }
    match &action.local_path {
        Some(p) => Some(RenameProbe { local_path: p.clone(), expects_folder }),
        None => None,
    }
}

/// The stable id read from the entry, when it has a non-blank one.
pub fn stable_id(xattr_id: Option<String>) -> (r: Option<String>)
    ensures
        opt_str(r) == match xattr_id {
            Some(s) => if not_blank(s@) { Some(s@) } else { None },
            None => None,
        },
{
    match xattr_id {
        Some(s) => if is_not_blank(s.as_str()) { Some(s) } else { None },
        None => None,
    }
}

/// The baselines that carry the id `fid`.
pub open spec fn records_with(records: Seq<SyncItem>, fid: Seq<char>) -> Seq<SyncItem> {
    records.filter(|r: SyncItem| r.file_id@ == fid)
}

/// The first cloud path (in the tree's order) that holds the id `fid`.
pub open spec fn first_cloud_index(cloud: PathMap<DriveFile>, fid: Seq<char>) -> Option<int> {
    if exists|i: int| 0 <= i < cloud.keys().len() && cloud.as_map()[cloud.keys()[i]].id == fid {
        Some(choose|i: int| 0 <= i < cloud.keys().len() && cloud.as_map()[cloud.keys()[i]].id == fid
            && forall|j: int| 0 <= j < i ==> cloud.as_map()[cloud.keys()[j]].id != fid)
    } else {
        None
    }
}

/// The evidence for a rename: the single baseline of the id, and where the
/// cloud tree holds the id.
pub struct RenameSource {
    pub old: SyncItem,
    pub cloud_path: String,
    pub cloud_file: DriveFile,
}

/// Whether the evidence for a rename of `action` by the id `fid` holds:
/// exactly one baseline has the id, at another path than the action's; the
/// cloud tree holds the id; and the local entry, the baseline and the cloud
/// file agree on being a folder.
pub open spec fn source_for(
    action: SyncAction,
    fid: Seq<char>,
    local_is_dir: bool,
    records: Seq<SyncItem>,
    cloud: PathMap<DriveFile>,
) -> Option<(SyncItem, int)> {
    let with = records_with(records, fid);
    if with.len() != 1 {
        None
    } else if Some(with[0].local_path@) == opt_str(action.relative_path) {
        None
    } else {
        match first_cloud_index(cloud, fid) {
            None => None,
            Some(i) => {
                let f = cloud.as_map()[cloud.keys()[i]];
                if with[0].is_folder != local_is_dir || with[0].is_folder != f.is_folder() {
                    None
                } else {
                    Some((with[0], i))
                }
            },
        }
    }
}

/// How many baselines carry `fid` (0, 1 or "more"), and the first of them.
fn count_records(records: &Vec<SyncItem>, fid: &str) -> (r: (usize, usize))
    ensures
        r.0 <= 2,
        r.0 < 2 ==> r.0 == records_with(records@, fid@).len(),
        r.0 == 2 ==> records_with(records@, fid@).len() >= 2,
        r.0 >= 1 ==> r.1 < records@.len() && records_with(records@, fid@)[0] == records@[r.1 as int],
{
    let mut count: usize = 0;
    let mut first: usize = 0;
    let mut i: usize = 0;
    proof {
        crate::retain::lemma_filter_empty(records@.take(0), |r: SyncItem| r.file_id@ == fid@);
    }
    while i < records.len()
        invariant
            i <= records@.len(),
            count <= 2,
            count < 2 ==> count == records_with(records@.take(i as int), fid@).len(),
            count == 2 ==> records_with(records@.take(i as int), fid@).len() >= 2,
            count >= 1 ==> first < i && records_with(records@.take(i as int), fid@)[0] == records@[first as int],
        decreases records@.len() - i,
    {
        proof {
            crate::retain::lemma_filter_take_step(records@, i as int, |r: SyncItem| r.file_id@ == fid@);
        }
        if str_equal(records[i].file_id.as_str(), fid) {
            if count == 0 {
                first = i;
            }
            if count < 2 {
                count = count + 1;
            }
        }
        i = i + 1;
    }
    assert(records@.take(records@.len() as int) =~= records@);
    (count, first)
}

/// The first cloud path that holds the id `fid`.
fn find_cloud_id(cloud: &PathMap<DriveFile>, fid: &str) -> (r: Option<usize>)
    requires
        cloud.wf(),
    ensures
        match r {
            Some(i) => i < cloud.keys().len() && first_cloud_index(*cloud, fid@) == Some(i as int),
            None => first_cloud_index(*cloud, fid@) is None,
        },
{
    let mut i: usize = 0;
    while i < cloud.len()
        invariant
            cloud.wf(),
            i <= cloud.keys().len(),
            forall|j: int| 0 <= j < i ==> cloud.as_map()[cloud.keys()[j]].id != fid@,
        decreases cloud.keys().len() - i,
    {
        proof {
            cloud.lemma_lookup(i as int);
        }
        if str_equal(cloud.value(i).id.as_str(), fid) {
            proof {
                assert(cloud.as_map()[cloud.keys()[i as int]].id == fid@
                    && forall|j: int| 0 <= j < i as int ==> cloud.as_map()[cloud.keys()[j]].id != fid@);
                let w = choose|w: int| 0 <= w < cloud.keys().len() && cloud.as_map()[cloud.keys()[w]].id == fid@
                    && forall|j: int| 0 <= j < w ==> cloud.as_map()[cloud.keys()[j]].id != fid@;
                assert(w == i as int) by {
                    if w > i as int {
                        assert(cloud.as_map()[cloud.keys()[i as int]].id != fid@);
                    }
                }
            }
            return Some(i);
        }
        i = i + 1;
    }
    None
}

/// Gather the evidence for a rename of `action` by the id `fid` read from its
/// local entry (a directory exactly when `local_is_dir`).
pub fn rename_source(
    action: &SyncAction,
    fid: &str,
    local_is_dir: bool,
    records: &Vec<SyncItem>,
    cloud: &PathMap<DriveFile>,
) -> (r: Option<RenameSource>)
    requires
        cloud.wf(),
    ensures
        match r {
            Some(s) => source_for(*action, fid@, local_is_dir, records@, *cloud) matches Some((old, i))
                && s.old == old && s.cloud_path@ == cloud.keys()[i]
                && s.cloud_file@ == cloud.as_map()[cloud.keys()[i]],
            None => source_for(*action, fid@, local_is_dir, records@, *cloud) is None,
        },
{
    let (count, first) = count_records(records, fid);
    if count != 1 {
        return None;
    }
    let old = &records[first];
    let same_path = match &action.relative_path {
        Some(p) => str_equal(old.local_path.as_str(), p.as_str()),
        None => false,
    };
    if same_path {
        return None;
    }
    let i = match find_cloud_id(cloud, fid) {
        Some(i) => i,
        None => return None,
    };
    proof {
        cloud.lemma_lookup(i as int);
    }
    let f = cloud.value(i);
    if old.is_folder != local_is_dir || old.is_folder != f.is_folder() {
        return None;
    }
    Some(RenameSource { old: old.duplicate(), cloud_path: cloud.key(i).clone(), cloud_file: f.duplicate() })
}

/// What the old path of a rename shows.
pub enum OldPathState {
    /// Nothing exists there any more.
    Absent,
    /// An entry exists there, carrying this stable id (if any, as text).
    Present { owner: Option<String> },
    /// Its existence or identity could not be established.
    Unverifiable,
}

/// The meaning of the old path's state.
#[derive(Debug, Clone, Copy, PartialEq, Eq, Structural)]
pub enum RenameVerdict {
    /// Not proven: leave the action as planned.
    Skip,
    /// The old path still holds the same file: the new entry is a copy, whose
    /// inherited id the caller removes.
    Copy,
    /// A move. With `replaced`, the old path holds another file now, whose
    /// changes wait for the next cycle.
    Move { replaced: bool },
}

/// The meaning of the old path's state for a rename by `fid`.
pub open spec fn verdict_for(state: OldPathState, fid: Seq<char>) -> RenameVerdict {
    match state {
        OldPathState::Absent => RenameVerdict::Move { replaced: false },
        OldPathState::Present { owner } => if opt_str(owner) == Some(fid) {
            RenameVerdict::Copy
        } else {
            RenameVerdict::Move { replaced: true }
        },
        OldPathState::Unverifiable => RenameVerdict::Skip,
    }
}

/// The meaning of the old path's state for a rename by `fid`.
pub fn rename_verdict(state: &OldPathState, fid: &str) -> (v: RenameVerdict)
    ensures
        v == verdict_for(*state, fid@),
{
    match state {
        OldPathState::Absent => RenameVerdict::Move { replaced: false },
        OldPathState::Present { owner } => match owner {
            Some(o) => if str_equal(o.as_str(), fid) {
                RenameVerdict::Copy
            } else {
                RenameVerdict::Move { replaced: true }
            },
            None => RenameVerdict::Move { replaced: true },
        },
        OldPathState::Unverifiable => RenameVerdict::Skip,
    }
}

/// One recognised move.
pub struct RenameRecord {
    pub old_path: String,
    pub new_path: String,
    pub file_id: String,
    pub cloud_path: String,
    pub is_folder: bool,
}

/// The moves recognised in one plan, and the old paths whose new occupants
/// wait for the next cycle.
pub struct RenameLedger {
    pub moves: Vec<RenameRecord>,
    /// (old path, file id) of moves whose old path holds another file now.
    pub replaced: Vec<(String, String)>,
}

/// The part of `path` before its last `/`, or the empty path.
pub open spec fn parent_text(path: Seq<char>) -> Seq<char> {
    match parent_of(path) {
        Some(p) => p,
        None => Seq::empty(),
    }
}

/// Text of an optional folder id as the debug formatter writes it.
pub uninterp spec fn debug_text(o: Option<Seq<char>>) -> Seq<char>;

/// Debug text of an optional id (`format!("{:?}")`): `None` for no id; for
/// an id, `Some` with the id quoted and escaped as `str`'s `Debug` does,
/// which is left to the name.
#[verifier::external_body]
fn debug_option(o: &Option<String>) -> (s: String)
    ensures
        s@ == debug_text(opt_str(*o)),
        *o is None ==> s@ == "None"@,
{
    format!("{:?}", o)
}

/// Reason of a rename inside one folder.
pub open spec fn same_folder_reason(old: Seq<char>, new: Seq<char>, fid: Seq<char>) -> Seq<char> {
    "同目录改名检测："@ + old + " → "@ + new + "（fileId="@ + fid + "，先于内容同步）"@
}

/// Reason of a move across folders.
pub open spec fn cross_folder_reason(old: Seq<char>, new: Seq<char>, fid: Seq<char>, parent: Option<Seq<char>>) -> Seq<char> {
    "跨目录移动检测："@ + old + " → "@ + new + "（fileId="@ + fid + "，目标 parent="@ + debug_text(parent) + "）"@
}

/// The target parent folder id of a move across folders: the root for a
/// top-level path, else the cloud id the path index holds for the parent.
pub open spec fn target_parent(new_parent: Seq<char>, path_to_id: Map<Seq<char>, Seq<char>>, root: Option<Seq<char>>) -> Option<Seq<char>> {
    if new_parent.len() == 0 {
        root
    } else if path_to_id.contains_key(new_parent) {
        Some(path_to_id[new_parent])
    } else {
        None
    }
}

/// The action rewritten into the cloud move of the file the source names.
pub open spec fn moved_action(
    a: SyncAction,
    old: SyncItem,
    cloud_path: Seq<char>,
    file: DriveFileView,
    fid: Seq<char>,
    path_to_id: Map<Seq<char>, Seq<char>>,
    root: Option<Seq<char>>,
) -> crate::model::SyncActionView {
    let new = match a.relative_path { Some(p) => p@, None => Seq::empty() };
    let same = parent_text(cloud_path) == parent_text(new);
    let parent = if same { file.first_parent() } else { target_parent(parent_text(new), path_to_id, root) };
    crate::model::SyncActionView {
        action_type: SyncActionType::MoveInCloud,
        file_id: Some(fid),
        cloud_file: Some(file),
        parent_file_id: parent,
        reason: Some(if same {
            same_folder_reason(old.local_path@, new, fid)
        } else {
            cross_folder_reason(old.local_path@, new, fid, parent)
        }),
        ..a@
    }
}

/// A folder is never moved into its own subtree.
pub open spec fn move_refused(a: SyncAction, old: SyncItem, cloud_path: Seq<char>) -> bool {
    old.is_folder && strict_descendant(match a.relative_path { Some(p) => p@, None => Seq::empty() }, cloud_path)
}

/// Record that the old path of a move by `fid` holds another file now.
pub fn note_replaced(ledger: &mut RenameLedger, source: &RenameSource, fid: &str)
    ensures
        final(ledger).moves@ == old(ledger).moves@,
        final(ledger).replaced@.len() == old(ledger).replaced@.len() + 1,
        forall|i: int| 0 <= i < old(ledger).replaced@.len() ==> final(ledger).replaced@[i] == old(ledger).replaced@[i],
        final(ledger).replaced@.last().0@ == source.old.local_path@,
        final(ledger).replaced@.last().1@ == fid@,
{
    ledger.replaced.push((source.old.local_path.clone(), fid.to_owned()));
}

/// Rewrite the action into the cloud move of the file the source names, and
/// record the move. A folder is not moved into its own subtree: then nothing
/// changes and the result is `false`.
pub fn apply_move(
    action: &mut SyncAction,
    ledger: &mut RenameLedger,
    source: &RenameSource,
    fid: &str,
    path_to_id: &PathMap<String>,
    root_folder_id: &Option<String>,
) -> (moved: bool)
    requires
        path_to_id.wf(),
    ensures
        moved == !move_refused(*old(action), source.old, source.cloud_path@),
        !moved ==> *final(action) == *old(action) && *final(ledger) == *old(ledger),
        moved ==> final(action)@ == moved_action(*old(action), source.old, source.cloud_path@,
            source.cloud_file@, fid@, path_to_id.as_map(), opt_str(*root_folder_id)),
        moved ==> final(ledger).replaced@ == old(ledger).replaced@,
        moved ==> final(ledger).moves@.len() == old(ledger).moves@.len() + 1,
        moved ==> forall|i: int| 0 <= i < old(ledger).moves@.len() ==> final(ledger).moves@[i] == old(ledger).moves@[i],
        moved ==> ({
            let m = final(ledger).moves@.last();
            &&& m.old_path@ == source.old.local_path@
            &&& m.new_path@ == match old(action).relative_path { Some(p) => p@, None => Seq::empty() }
            &&& m.file_id@ == fid@
            &&& m.cloud_path@ == source.cloud_path@
            &&& m.is_folder == source.old.is_folder
        }),
{
    let new_path: String = match &action.relative_path {
        Some(p) => p.clone(),
        None => String::new(),
    };
    if source.old.is_folder && is_strict_descendant(new_path.as_str(), source.cloud_path.as_str()) {
        return false;
    }
    let current_parent = match parent_path(source.cloud_path.as_str()) {
        Some(p) => p,
        None => String::new(),
    };
    let new_parent = match parent_path(new_path.as_str()) {
        Some(p) => p,
        None => String::new(),
    };
    action.file_id = Some(fid.to_owned());
    action.cloud_file = Some(source.cloud_file.duplicate());
    action.action_type = SyncActionType::MoveInCloud;
    if str_equal(current_parent.as_str(), new_parent.as_str()) {
        action.parent_file_id = source.cloud_file.first_parent();
        let mut reason = concat("同目录改名检测：", source.old.local_path.as_str());
        push_str(&mut reason, " → ");
        push_str(&mut reason, new_path.as_str());
        push_str(&mut reason, "（fileId=");
        push_str(&mut reason, fid);
        push_str(&mut reason, "，先于内容同步）");
        action.reason = Some(reason);
    } else {
        let parent: Option<String> = if new_parent.unicode_len() == 0 {
            crate::model::clone_opt_string(root_folder_id)
        } else {
            match path_to_id.get(new_parent.as_str()) {
                Some(id) => Some(id.clone()),
                None => None,
            }
        };
        let mut reason = concat("跨目录移动检测：", source.old.local_path.as_str());
        push_str(&mut reason, " → ");
        push_str(&mut reason, new_path.as_str());
        push_str(&mut reason, "（fileId=");
        push_str(&mut reason, fid);
        push_str(&mut reason, "，目标 parent=");
        let shown = debug_option(&parent);
        push_str(&mut reason, shown.as_str());
        push_str(&mut reason, "）");
        action.parent_file_id = parent;
        action.reason = Some(reason);
    }
    ledger.moves.push(RenameRecord {
        old_path: source.old.local_path.clone(),
        new_path,
        file_id: fid.to_owned(),
        cloud_path: source.cloud_path.clone(),
        is_folder: source.old.is_folder,
    });
    true
}

/// A folder move keeps, inside its old and new subtrees, only its own root
/// move; everything else there waits for the next cycle.
pub open spec fn clear_of_folder_moves(a: SyncAction, moves: Seq<RenameRecord>) -> bool {
    a.relative_path matches Some(p) ==> forall|k: int| 0 <= k < moves.len() && #[trigger] moves[k].is_folder
        && (in_subtree(p@, moves[k].old_path@) || in_subtree(p@, moves[k].new_path@))
        ==> (a.action_type == SyncActionType::MoveInCloud && p@ == moves[k].new_path@
            && opt_str(a.file_id) == Some(moves[k].file_id@))
}

/// The action works on an old path whose new occupant waits.
pub open spec fn on_replaced_path(a: SyncAction, replaced: Seq<(String, String)>) -> bool {
    a.relative_path is Some && a.file_id is Some && exists|k: int| 0 <= k < replaced.len()
        && (#[trigger] replaced[k]).0@ == a.relative_path->0@ && replaced[k].1@ == a.file_id->0@
}

/// The action creates a placeholder at a cloud path that a move supersedes.
pub open spec fn superseded_placeholder(a: SyncAction, moves: Seq<RenameRecord>) -> bool {
    a.action_type == SyncActionType::CreatePlaceholder && a.relative_path is Some && a.file_id is Some
        && exists|k: int| 0 <= k < moves.len() && (#[trigger] moves[k]).cloud_path@ != moves[k].new_path@
            && moves[k].cloud_path@ == a.relative_path->0@ && moves[k].file_id@ == a.file_id->0@
}

/// The action deletes in the cloud a moved source, or a folder above one.
pub open spec fn deletes_move_source(a: SyncAction, moves: Seq<RenameRecord>) -> bool {
    a.action_type == SyncActionType::DeleteFromCloud && a.relative_path is Some && a.file_id is Some
        && exists|k: int| 0 <= k < moves.len()
            && (((#[trigger] moves[k]).old_path@ == a.relative_path->0@ && moves[k].file_id@ == a.file_id->0@)
                || strict_descendant(moves[k].old_path@, a.relative_path->0@))
}

/// `retain_after_renames` keeps the action.
pub open spec fn keeps_after_renames(a: SyncAction, moves: Seq<RenameRecord>, replaced: Seq<(String, String)>) -> bool {
    &&& clear_of_folder_moves(a, moves)
    &&& !on_replaced_path(a, replaced)
    &&& !superseded_placeholder(a, moves)
    &&& !deletes_move_source(a, moves)
}

fn is_move_of(a: &SyncAction, m: &RenameRecord) -> (b: bool)
    ensures
        b == (a.action_type == SyncActionType::MoveInCloud
            && opt_str(a.relative_path) == Some(m.new_path@) && opt_str(a.file_id) == Some(m.file_id@)),
{
    let is_move = match a.action_type {
        SyncActionType::MoveInCloud => true,
        _ => false,
    };
    is_move && match &a.relative_path {
        Some(p) => str_equal(p.as_str(), m.new_path.as_str()),
        None => false,
    } && match &a.file_id {
        Some(f) => str_equal(f.as_str(), m.file_id.as_str()),
        None => false,
    }
}

fn check_folder_moves(a: &SyncAction, moves: &Vec<RenameRecord>) -> (b: bool)
    ensures
        b == clear_of_folder_moves(*a, moves@),
{
    let p = match &a.relative_path {
        Some(p) => p,
        None => return true,
    };
    let mut k: usize = 0;
    while k < moves.len()
        invariant
            k <= moves@.len(),
            a.relative_path == Some(*p),
            forall|j: int| 0 <= j < k && #[trigger] moves@[j].is_folder
                && (in_subtree(p@, moves@[j].old_path@) || in_subtree(p@, moves@[j].new_path@))
                ==> (a.action_type == SyncActionType::MoveInCloud && p@ == moves@[j].new_path@
                    && opt_str(a.file_id) == Some(moves@[j].file_id@)),
        decreases moves@.len() - k,
    {
        let m = &moves[k];
        if m.is_folder && (is_in_subtree(p.as_str(), m.old_path.as_str())
            || is_in_subtree(p.as_str(), m.new_path.as_str())) {
            if !is_move_of(a, m) {
                assert(moves@[k as int].is_folder);
                return false;
            }
        }
        k = k + 1;
    }
    true
}

fn check_replaced(a: &SyncAction, replaced: &Vec<(String, String)>) -> (b: bool)
    ensures
        b == on_replaced_path(*a, replaced@),
{
    let (p, f) = match (&a.relative_path, &a.file_id) {
        (Some(p), Some(f)) => (p, f),
        _ => return false,
    };
    let mut k: usize = 0;
    while k < replaced.len()
        invariant
            k <= replaced@.len(),
            a.relative_path == Some(*p),
            a.file_id == Some(*f),
            forall|j: int| 0 <= j < k ==> !((#[trigger] replaced@[j]).0@ == p@ && replaced@[j].1@ == f@),
        decreases replaced@.len() - k,
    {
        if str_equal(replaced[k].0.as_str(), p.as_str()) && str_equal(replaced[k].1.as_str(), f.as_str()) {
            assert(replaced@[k as int].0@ == p@);
            return true;
        }
        k = k + 1;
    }
    false
}

fn check_superseded(a: &SyncAction, moves: &Vec<RenameRecord>) -> (b: bool)
    ensures
        b == superseded_placeholder(*a, moves@),
{
    match a.action_type {
        SyncActionType::CreatePlaceholder => {},
        _ => return false,
    }
    let (p, f) = match (&a.relative_path, &a.file_id) {
        (Some(p), Some(f)) => (p, f),
        _ => return false,
    };
    let mut k: usize = 0;
    while k < moves.len()
        invariant
            k <= moves@.len(),
            a.relative_path == Some(*p),
            a.file_id == Some(*f),
            a.action_type == SyncActionType::CreatePlaceholder,
            forall|j: int| 0 <= j < k ==> !((#[trigger] moves@[j]).cloud_path@ != moves@[j].new_path@
                && moves@[j].cloud_path@ == p@ && moves@[j].file_id@ == f@),
        decreases moves@.len() - k,
    {
        let m = &moves[k];
        if !str_equal(m.cloud_path.as_str(), m.new_path.as_str()) && str_equal(m.cloud_path.as_str(), p.as_str())
            && str_equal(m.file_id.as_str(), f.as_str()) {
            assert(moves@[k as int].cloud_path@ == p@);
            return true;
        }
        k = k + 1;
    }
    false
}

fn check_move_source(a: &SyncAction, moves: &Vec<RenameRecord>) -> (b: bool)
    ensures
        b == deletes_move_source(*a, moves@),
{
    match a.action_type {
        SyncActionType::DeleteFromCloud => {},
        _ => return false,
    }
    let (p, f) = match (&a.relative_path, &a.file_id) {
        (Some(p), Some(f)) => (p, f),
        _ => return false,
    };
    let mut k: usize = 0;
    while k < moves.len()
        invariant
            k <= moves@.len(),
            a.relative_path == Some(*p),
            a.file_id == Some(*f),
            a.action_type == SyncActionType::DeleteFromCloud,
            forall|j: int| 0 <= j < k ==> !(((#[trigger] moves@[j]).old_path@ == p@ && moves@[j].file_id@ == f@)
                || strict_descendant(moves@[j].old_path@, p@)),
        decreases moves@.len() - k,
    {
        let m = &moves[k];
        if (str_equal(m.old_path.as_str(), p.as_str()) && str_equal(m.file_id.as_str(), f.as_str()))
            || is_strict_descendant(m.old_path.as_str(), p.as_str()) {
            return true;
        }
        k = k + 1;
    }
    false
}

/// The plan once the moves are known.
pub open spec fn plan_after_renames(actions: Seq<SyncAction>, moves: Seq<RenameRecord>, replaced: Seq<(String, String)>) -> Seq<SyncAction> {
    actions.filter(|a: SyncAction| keeps_after_renames(a, moves, replaced))
}

/// Once the moves are known, drop what they make redundant or dangerous: the
/// other actions inside the old and new subtrees of folder moves, actions on
/// old paths whose new occupant waits, placeholders at superseded cloud
/// paths, and cloud deletions of moved sources and the folders above them.
pub fn retain_after_renames(actions: &mut Vec<SyncAction>, ledger: &RenameLedger)
    ensures
        final(actions)@ == plan_after_renames(old(actions)@, ledger.moves@, ledger.replaced@),
{
    let ghost orig = actions@;
    let mut mask: Vec<bool> = Vec::new();
    let mut i: usize = 0;
    while i < actions.len()
        invariant
            orig == actions@,
            i <= orig.len(),
            mask@.len() == i,
            forall|j: int| 0 <= j < i ==> mask@[j] == keeps_after_renames(orig[j], ledger.moves@, ledger.replaced@),
        decreases orig.len() - i,
    {
        let a = &actions[i];
        let keep = check_folder_moves(a, &ledger.moves) && !check_replaced(a, &ledger.replaced)
            && !check_superseded(a, &ledger.moves) && !check_move_source(a, &ledger.moves);
        mask.push(keep);
        i = i + 1;
    }
    proof {
        lemma_select_is_filter(orig, mask@, |a: SyncAction| keeps_after_renames(a, ledger.moves@, ledger.replaced@));
    }
    retain_by_mask(actions, &mask);
}

} // verus!
