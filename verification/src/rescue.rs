//! Recreating cloud folders that were deleted remotely but still hold local
//! content about to be put back into the cloud.

use vstd::prelude::*;
use crate::action_filters::path_of;
use crate::model::{LocalFileEntryView, SyncAction, SyncActionType, SyncActionView};
use crate::path_map::PathMap;
use crate::paths::{depth, path_depth, str_equal, strict_descendant};
use crate::planner::{strings_contain, SyncSnapshot};
use crate::model::strs;

verus! {

/// Actions that put content into the cloud: uploads, cloud moves, backup
/// copies, conflict copies and folders created from the local side.
pub open spec fn creates_cloud_content(a: SyncAction) -> bool {
    ||| a.action_type == SyncActionType::Upload
    ||| a.action_type == SyncActionType::MoveInCloud
    ||| a.action_type == SyncActionType::BackupBeforeCloudDelete
    ||| a.action_type == SyncActionType::CreateConflictCopy
    ||| (a.action_type == SyncActionType::CreateFolder && a.cloud_file is None)
}

/// `a` puts content into the cloud strictly below `folder`.
pub open spec fn needs_folder_at(a: SyncAction, folder: Seq<char>) -> bool {
    &&& creates_cloud_content(a)
    &&& a.relative_path is Some
    &&& strict_descendant(a.relative_path->0@, folder)
}

/// Some action of `actions` puts content into the cloud below `folder`.
pub open spec fn needs_folder(actions: Seq<SyncAction>, folder: Seq<char>) -> bool {
    exists|k: int| 0 <= k < actions.len() && #[trigger] needs_folder_at(actions[k], folder)
}

/// Some action of `actions` is planned for `path`.
pub open spec fn planned_at(actions: Seq<SyncAction>, path: Seq<char>) -> bool {
    exists|k: int| 0 <= k < actions.len() && path_of(#[trigger] actions[k]) == Some(path)
}

/// `folder` has no planned action, is a directory locally, is gone from the
/// cloud, has a baseline, and was not deleted on purpose a moment ago.
pub open spec fn rescuable(
    folder: Seq<char>,
    actions: Seq<SyncAction>,
    snap: SyncSnapshot,
    recently_deleted: Map<Seq<char>, i64>,
) -> bool {
    &&& !planned_at(actions, folder)
    &&& snap.local.as_map().contains_key(folder)
    &&& snap.local.as_map()[folder].is_folder
    &&& !snap.cloud.as_map().contains_key(folder)
    &&& snap.db.as_map().contains_key(folder)
    &&& !recently_deleted.contains_key(folder)
}

/// The folders that `add_rescue_folder_recreations` recreates.
pub open spec fn rescue_candidate(
    folder: Seq<char>,
    actions: Seq<SyncAction>,
    snap: SyncSnapshot,
    recently_deleted: Map<Seq<char>, i64>,
) -> bool {
    needs_folder(actions, folder) && rescuable(folder, actions, snap, recently_deleted)
}

/// The folder creation that recreates `folder` in the cloud.
pub open spec fn rescue_action(folder: Seq<char>, local: LocalFileEntryView) -> SyncActionView {
    SyncActionView {
        action_type: SyncActionType::CreateFolder,
        relative_path: Some(folder),
        file_id: None,
        parent_file_id: None,
        local_path: Some(local.absolute_path),
        cloud_file: None,
        reason: Some("云端已删除但内有内容需救援 → 重建目录到云端"@),
    }
}

/// An added action: the recreation of one rescue candidate.
pub open spec fn rescue_entry(
    a: SyncAction,
    actions: Seq<SyncAction>,
    snap: SyncSnapshot,
    recently_deleted: Map<Seq<char>, i64>,
) -> bool {
    &&& a.relative_path is Some
    &&& rescue_candidate(a.relative_path->0@, actions, snap, recently_deleted)
    &&& a@ == rescue_action(a.relative_path->0@, snap.local.as_map()[a.relative_path->0@])
}

/// Whether some action is planned for `path`.
fn has_action_at(actions: &Vec<SyncAction>, path: &str) -> (b: bool)
    ensures
        b == planned_at(actions@, path@),
{
    let mut k: usize = 0;
    while k < actions.len()
        invariant
            k <= actions@.len(),
            forall|j: int| 0 <= j < k ==> path_of(#[trigger] actions@[j]) != Some(path@),
        decreases actions@.len() - k,
    {
        if let Some(p) = &actions[k].relative_path {
            if str_equal(p.as_str(), path) {
                assert(path_of(actions@[k as int]) == Some(path@));
                return true;
            }
        }
        k = k + 1;
    }
    false
}

/// Whether `folder` may be recreated (all but the need for it).
fn is_rescuable(
    actions: &Vec<SyncAction>,
    snapshot: &SyncSnapshot,
    recently_deleted: &PathMap<i64>,
    folder: &str,
) -> (b: bool)
    requires
        snapshot.wf(),
        recently_deleted.wf(),
    ensures
        b == rescuable(folder@, actions@, *snapshot, recently_deleted.as_map()),
{
    if has_action_at(actions, folder) {
        return false;
    }
    let is_folder = match snapshot.local.get(folder) {
        Some(e) => e.is_folder,
        None => false,
    };
    is_folder && !snapshot.cloud.contains_key(folder) && snapshot.db.contains_key(folder)
        && !recently_deleted.contains_key(folder)
}

/// The distinct rescue candidates, each once.
fn rescue_candidates(
    actions: &Vec<SyncAction>,
    snapshot: &SyncSnapshot,
    recently_deleted: &PathMap<i64>,
) -> (cands: Vec<String>)
    requires
        snapshot.wf(),
        recently_deleted.wf(),
    ensures
        forall|c: int| 0 <= c < cands@.len() ==> rescue_candidate(
            #[trigger] cands@[c]@, actions@, *snapshot, recently_deleted.as_map()),
        forall|a: int, b: int| 0 <= a < b < cands@.len() ==> cands@[a]@ != cands@[b]@,
        forall|f: Seq<char>| #[trigger] rescue_candidate(f, actions@, *snapshot, recently_deleted.as_map())
            ==> strs(cands).contains(f),
{
    let ghost orig = actions@;
    let ghost rd = recently_deleted.as_map();
    let mut cands: Vec<String> = Vec::new();
    let mut k: usize = 0;
    while k < actions.len()
        invariant
            orig == actions@,
            snapshot.wf(),
            recently_deleted.wf(),
            rd == recently_deleted.as_map(),
            k <= orig.len(),
            forall|c: int| 0 <= c < cands@.len() ==> rescue_candidate(
                #[trigger] cands@[c]@, orig, *snapshot, rd),
            forall|a: int, b: int| 0 <= a < b < cands@.len() ==> cands@[a]@ != cands@[b]@,
            forall|kk: int, f: Seq<char>| #![trigger needs_folder_at(orig[kk], f)]
                0 <= kk < k && needs_folder_at(orig[kk], f) && rescuable(f, orig, *snapshot, rd)
                ==> strs(cands).contains(f),
        decreases orig.len() - k,
    {
        let a = &actions[k];
        if a.relative_path.is_some() && match a.action_type {
            SyncActionType::Upload => true,
            SyncActionType::MoveInCloud => true,
            SyncActionType::BackupBeforeCloudDelete => true,
            SyncActionType::CreateConflictCopy => true,
            SyncActionType::CreateFolder => a.cloud_file.is_none(),
            _ => false,
        } {
            let p: &String = a.relative_path.as_ref().unwrap();
            let n = p.unicode_len();
            let mut j: usize = 0;
            while j < n
                invariant
                    orig == actions@,
                    snapshot.wf(),
                    recently_deleted.wf(),
                    rd == recently_deleted.as_map(),
                    k < orig.len(),
                    orig[k as int].relative_path == Some(*p),
                    creates_cloud_content(orig[k as int]),
                    n == p@.len(),
                    j <= n,
                    forall|c: int| 0 <= c < cands@.len() ==> rescue_candidate(
                        #[trigger] cands@[c]@, orig, *snapshot, rd),
                    forall|x: int, y: int| 0 <= x < y < cands@.len() ==> cands@[x]@ != cands@[y]@,
                    forall|kk: int, f: Seq<char>| #![trigger needs_folder_at(orig[kk], f)]
                        0 <= kk < k && needs_folder_at(orig[kk], f) && rescuable(f, orig, *snapshot, rd)
                        ==> strs(cands).contains(f),
                    forall|f: Seq<char>| #![trigger needs_folder_at(orig[k as int], f)]
                        needs_folder_at(orig[k as int], f) && f.len() < j
                        && rescuable(f, orig, *snapshot, rd) ==> strs(cands).contains(f),
                decreases n - j,
            {
                if p.get_char(j) == '/' {
                    let anc = p.substring_char(0, j).to_owned();
                    assert(strict_descendant(p@, anc@));
                    assert(needs_folder_at(orig[k as int], anc@));
                    if is_rescuable(actions, snapshot, recently_deleted, anc.as_str())
                        && !strings_contain(&cands, anc.as_str()) {
                        let ghost before = strs(cands);
                        let ghost old_cands = cands@;
                        cands.push(anc);
                        assert(strs(cands) =~= before.push(p@.subrange(0, j as int)));
                        proof {
                            assert forall|f: Seq<char>| before.contains(f) implies strs(cands).contains(f) by {
                                let w = choose|w: int| 0 <= w < before.len() && before[w] == f;
                                assert(strs(cands)[w] == f);
                            }
                            assert forall|x: int| 0 <= x < old_cands.len() implies
                                old_cands[x]@ != p@.subrange(0, j as int) by {
                                if old_cands[x]@ == p@.subrange(0, j as int) {
                                    assert(before[x] == p@.subrange(0, j as int));
                                    assert(before.contains(p@.subrange(0, j as int)));
                                }
                            }
                            assert(strs(cands)[old_cands.len() as int] == p@.subrange(0, j as int));
                            assert(strs(cands).contains(p@.subrange(0, j as int)));
                        }
                    }
                    proof {
                        assert forall|f: Seq<char>|
                            needs_folder_at(orig[k as int], f) && f.len() < j + 1
                            && rescuable(f, orig, *snapshot, rd) implies strs(cands).contains(f) by {
                            if f.len() == j {
                                assert(f =~= p@.subrange(0, j as int));
                            }
                        }
                    }
                } else {
                    proof {
                        assert forall|f: Seq<char>|
                            needs_folder_at(orig[k as int], f) && f.len() < j + 1
                            && rescuable(f, orig, *snapshot, rd) implies strs(cands).contains(f) by {
                            if f.len() == j {
                                assert(p@[j as int] == '/');
                            }
                        }
                    }
                }
                j = j + 1;
            }
        }
        k = k + 1;
    }
    cands
}

/// Depth (number of `/`) of each candidate.
fn candidate_depths(cands: &Vec<String>) -> (depths: Vec<usize>)
    ensures
        depths@.len() == cands@.len(),
        forall|c: int| 0 <= c < cands@.len() ==> depths@[c] == depth(#[trigger] cands@[c]@),
{
    let mut depths: Vec<usize> = Vec::new();
    let mut c: usize = 0;
    while c < cands.len()
        invariant
            c <= cands@.len(),
            depths@.len() == c,
            forall|i: int| 0 <= i < c ==> depths@[i] == depth(#[trigger] cands@[i]@),
        decreases cands@.len() - c,
    {
        let dc = path_depth(cands[c].as_str());
        depths.push(dc);
        c = c + 1;
    }
    depths
}

/// The largest of `values` (zero for none).
fn max_value(values: &Vec<usize>) -> (m: usize)
    ensures
        forall|i: int| 0 <= i < values@.len() ==> values@[i] <= m,
{
    let mut m: usize = 0;
    let mut i: usize = 0;
    while i < values.len()
        invariant
            i <= values@.len(),
            forall|j: int| 0 <= j < i ==> values@[j] <= m,
        decreases values@.len() - i,
    {
        if values[i] > m {
            m = values[i];
        }
        i = i + 1;
    }
    m
}

/// For the content that is about to be put into the cloud, recreate the
/// ancestor folders that were deleted in the cloud but still exist locally
/// with a baseline, unless an action is planned for them already or they were
/// deleted on purpose a moment ago. The folder creations are appended in order
/// of depth, parents first.
pub fn add_rescue_folder_recreations(
    actions: &mut Vec<SyncAction>,
    snapshot: &SyncSnapshot,
    recently_deleted: &PathMap<i64>,
)
    requires
        snapshot.wf(),
        recently_deleted.wf(),
    ensures
        final(actions)@.len() >= old(actions)@.len(),
        final(actions)@.take(old(actions)@.len() as int) == old(actions)@,
        forall|i: int| old(actions)@.len() <= i < final(actions)@.len() ==> rescue_entry(
            #[trigger] final(actions)@[i], old(actions)@, *snapshot, recently_deleted.as_map()),
        forall|f: Seq<char>| #[trigger] rescue_candidate(f, old(actions)@, *snapshot, recently_deleted.as_map())
            ==> planned_at(final(actions)@.skip(old(actions)@.len() as int), f),
        forall|i: int, j: int| old(actions)@.len() <= i < j < final(actions)@.len() ==>
            path_of(#[trigger] final(actions)@[i]) != path_of(#[trigger] final(actions)@[j])
            && depth(final(actions)@[i].relative_path->0@) <= depth(final(actions)@[j].relative_path->0@),
{
    let ghost orig = actions@;
    let ghost rd = recently_deleted.as_map();
    let ghost base = orig.len() as int;
    let cands = rescue_candidates(actions, snapshot, recently_deleted);
    let depths = candidate_depths(&cands);
    let maxd = max_value(&depths);
    let ghost mut emitted: Seq<int> = Seq::empty();
    assert(forall|c: int| 0 <= c < cands@.len() ==> depths@[c] == depth(#[trigger] cands@[c]@) && depths@[c] <= maxd);
    let top: u128 = maxd as u128;
    let mut d: u128 = 0;
    while d <= top
        invariant
            snapshot.wf(),
            rd == recently_deleted.as_map(),
            top == maxd,
            depths@.len() == cands@.len(),
            forall|c: int| 0 <= c < cands@.len() ==> depths@[c] == depth(#[trigger] cands@[c]@) && depths@[c] <= maxd,
            forall|c: int| 0 <= c < cands@.len() ==> rescue_candidate(#[trigger] cands@[c]@, orig, *snapshot, rd),
            forall|a: int, b: int| 0 <= a < b < cands@.len() ==> cands@[a]@ != cands@[b]@,
            d <= top + 1,
            base == orig.len(),
            actions@.len() == base + emitted.len(),
            forall|i: int| 0 <= i < base ==> actions@[i] == orig[i],
            forall|i: int| 0 <= i < emitted.len() ==> 0 <= #[trigger] emitted[i] < cands@.len()
                && depths@[emitted[i]] < d
                && actions@[base + i]@ == rescue_action(cands@[emitted[i]]@, snapshot.local.as_map()[cands@[emitted[i]]@]),
            forall|i: int, j: int| 0 <= i < j < emitted.len() ==> emitted[i] != emitted[j]
                && depths@[emitted[i]] <= depths@[emitted[j]],
            forall|c: int| 0 <= c < cands@.len() && depths@[c] < d ==> emitted.contains(c),
        decreases top + 1 - d,
    {
        let ghost start = emitted.len();
        let mut c: usize = 0;
        while c < cands.len()
            invariant
                snapshot.wf(),
                rd == recently_deleted.as_map(),
                d <= top,
                depths@.len() == cands@.len(),
                forall|c: int| 0 <= c < cands@.len() ==> rescue_candidate(#[trigger] cands@[c]@, orig, *snapshot, rd),
                c <= cands@.len(),
                start <= emitted.len(),
                base == orig.len(),
                actions@.len() == base + emitted.len(),
                forall|i: int| 0 <= i < base ==> actions@[i] == orig[i],
                forall|i: int| 0 <= i < emitted.len() ==> 0 <= #[trigger] emitted[i] < cands@.len()
                    && depths@[emitted[i]] <= d
                    && (i < start ==> depths@[emitted[i]] < d)
                    && (i >= start ==> depths@[emitted[i]] == d && emitted[i] < c)
                        && actions@[base + i]@ == rescue_action(cands@[emitted[i]]@, snapshot.local.as_map()[cands@[emitted[i]]@]),
                forall|i: int, j: int| 0 <= i < j < emitted.len() ==> emitted[i] != emitted[j]
                    && depths@[emitted[i]] <= depths@[emitted[j]],
                forall|x: int| 0 <= x < cands@.len() && (depths@[x] < d || (depths@[x] == d && x < c))
                    ==> emitted.contains(x),
            decreases cands@.len() - c,
        {
            if depths[c] as u128 == d {
                let name = &cands[c];
                match snapshot.local.get(name.as_str()) {
                    Some(entry) => {
                        let ghost before = actions@;
                        let ghost old_em = emitted;
                        actions.push(SyncAction {
                            action_type: SyncActionType::CreateFolder,
                            relative_path: Some(name.clone()),
                            file_id: None,
                            parent_file_id: None,
                            local_path: Some(entry.absolute_path.clone()),
                            cloud_file: None,
                            reason: Some("云端已删除但内有内容需救援 → 重建目录到云端".to_owned()),
                        });
                        proof {
                            assert(before.len() == base + old_em.len());
                            assert(actions@ == before.push(actions@[actions@.len() - 1]));
                            assert(actions@[base + old_em.len()]@ == rescue_action(cands@[c as int]@,
                                snapshot.local.as_map()[cands@[c as int]@]));
                            emitted = emitted.push(c as int);
                            assert forall|i: int| 0 <= i < emitted.len() implies 0 <= #[trigger] emitted[i] < cands@.len()
                                && depths@[emitted[i]] <= d
                                && (i < start ==> depths@[emitted[i]] < d)
                                && (i >= start ==> depths@[emitted[i]] == d && emitted[i] < c + 1)
                                && actions@[base + i]@ == rescue_action(cands@[emitted[i]]@,
                                    snapshot.local.as_map()[cands@[emitted[i]]@]) by {
                                if i < old_em.len() {
                                    assert(emitted[i] == old_em[i]);
                                    assert(actions@[base + i] == before[base + i]);
                                } else {
                                    assert(emitted[i] == c);
                                    assert(depths@[c as int] == d);
                                }
                            }
                            assert forall|x: int| 0 <= x < cands@.len()
                                && (depths@[x] < d || (depths@[x] == d && x < c + 1))
                                implies emitted.contains(x) by {
                                if x == c {
                                    assert(emitted[emitted.len() - 1] == x);
                                } else {
                                    assert(old_em.contains(x));
                                    let w = choose|w: int| 0 <= w < old_em.len() && old_em[w] == x;
                                    assert(emitted[w] == x);
                                }
                            }
                        }
                    },
                    None => {},
                }
            }
            c = c + 1;
        }
        d = d + 1;
    }
    proof {
        assert(actions@.take(base) =~= orig);
        assert forall|i: int| base <= i < actions@.len() implies rescue_entry(
            #[trigger] actions@[i], orig, *snapshot, rd) by {
            let e = emitted[i - base];
            assert(cands@[e]@ == actions@[i].relative_path->0@);
        }
        assert forall|f: Seq<char>| #[trigger] rescue_candidate(f, orig, *snapshot, rd)
            implies planned_at(actions@.skip(base), f) by {
            assert(strs(cands).contains(f));
            let c = choose|c: int| 0 <= c < strs(cands).len() && strs(cands)[c] == f;
            assert(cands@[c]@ == f);
            assert(emitted.contains(c));
            let w = choose|w: int| 0 <= w < emitted.len() && emitted[w] == c;
            assert(actions@.skip(base)[w] == actions@[base + w]);
            assert(path_of(actions@.skip(base)[w]) == Some(f));
        }
        assert forall|i: int, j: int| base <= i < j < actions@.len() implies
            path_of(#[trigger] actions@[i]) != path_of(#[trigger] actions@[j])
            && depth(actions@[i].relative_path->0@) <= depth(actions@[j].relative_path->0@) by {
            let ei = emitted[i - base];
            let ej = emitted[j - base];
            assert(ei != ej);
        }
    }
}

} // verus!
