//! The order in which a cycle's actions run: folders created locally go to
//! the cloud first, parents before children, each settled before the next so
//! that its cloud id can be handed to the actions below it; everything else
//! runs after them.

use vstd::prelude::*;
use crate::model::{opt_str, SyncAction, SyncActionType, SyncActionView};
use crate::paths::{depth, path_depth, strict_descendant};
use crate::settlement::ActionResult;

verus! {

/// An action that creates in the cloud a folder made locally.
pub open spec fn creates_local_folder(a: SyncActionView) -> bool {
    a.action_type == SyncActionType::CreateFolder && a.cloud_file is None
}

/// The depth by which folder creations are ordered: the number of `/` in the
/// relative path, zero without one.
pub open spec fn creation_depth(a: SyncActionView) -> nat {
    match a.relative_path {
        Some(p) => depth(p),
        None => 0,
    }
}

/// Whether the action at `i` is created before the one at `j`: shallower
/// first, and at equal depth in plan order.
pub open spec fn created_before(actions: Seq<SyncAction>, i: int, j: int) -> bool {
    creation_depth(actions[i]@) < creation_depth(actions[j]@)
        || (creation_depth(actions[i]@) == creation_depth(actions[j]@) && i < j)
}

/// `order` lists exactly the local folder creations of `actions`, each once,
/// in creation order.
pub open spec fn is_creation_order(actions: Seq<SyncAction>, order: Seq<usize>) -> bool {
    &&& forall|k: int| 0 <= k < order.len() ==> order[k] < actions.len()
        && creates_local_folder(actions[order[k] as int]@)
    &&& forall|k: int, l: int| 0 <= k < l < order.len() ==> created_before(actions, order[k] as int, order[l] as int)
    &&& forall|i: int| 0 <= i < actions.len() && creates_local_folder(#[trigger] actions[i]@)
        ==> order.contains(i as usize)
}

fn creates_local_folder_exec(a: &SyncAction) -> (b: bool)
    ensures
        b == creates_local_folder(a@),
{
    a.action_type == SyncActionType::CreateFolder && a.cloud_file.is_none()
}

fn creation_depth_exec(a: &SyncAction) -> (d: usize)
    ensures
        d == creation_depth(a@),
{
    match &a.relative_path {
        Some(p) => path_depth(p.as_str()),
        None => 0,
    }
}

/// The indices of the local folder creations among `actions`, parents first:
/// by depth, and at equal depth in plan order.
pub fn folder_creation_order(actions: &Vec<SyncAction>) -> (order: Vec<usize>)
    ensures
        is_creation_order(actions@, order@),
{
    let n = actions.len();
    let mut depths: Vec<usize> = Vec::new();
    let mut max_depth: usize = 0;
    let mut any = false;
    let mut i: usize = 0;
    while i < n
        invariant
            n == actions@.len(),
            i <= n,
            depths@.len() == i,
            forall|j: int| 0 <= j < i ==> depths@[j] == creation_depth(#[trigger] actions@[j]@),
            any <==> exists|j: int| 0 <= j < i && creates_local_folder(#[trigger] actions@[j]@),
            forall|j: int| 0 <= j < i && creates_local_folder(#[trigger] actions@[j]@) ==> depths@[j] <= max_depth,
        decreases n - i,
    {
        let d = creation_depth_exec(&actions[i]);
        depths.push(d);
        if creates_local_folder_exec(&actions[i]) {
            any = true;
            if d > max_depth {
                max_depth = d;
            }
        }
        i = i + 1;
    }
    let mut order: Vec<usize> = Vec::new();
    if !any {
        return order;
    }
    let mut d: usize = 0;
    loop
        invariant_except_break
            d <= max_depth,
            forall|k: int| 0 <= k < order@.len() ==> depths@[order@[k] as int] < d,
            forall|j: int| 0 <= j < n && creates_local_folder(#[trigger] actions@[j]@) && depths@[j] < d
                ==> order@.contains(j as usize),
        invariant
            n == actions@.len(),
            depths@.len() == n,
            forall|j: int| 0 <= j < n ==> depths@[j] == creation_depth(#[trigger] actions@[j]@),
            forall|j: int| 0 <= j < n && creates_local_folder(#[trigger] actions@[j]@) ==> depths@[j] <= max_depth,
            forall|k: int| 0 <= k < order@.len() ==> order@[k] < n
                && creates_local_folder(actions@[order@[k] as int]@),
            forall|k: int, l: int| 0 <= k < l < order@.len() ==> created_before(actions@, order@[k] as int, order@[l] as int),
        ensures
            forall|j: int| 0 <= j < n && creates_local_folder(#[trigger] actions@[j]@) ==> order@.contains(j as usize),
        decreases max_depth - d,
    {
        let mut i: usize = 0;
        while i < n
            invariant
                n == actions@.len(),
                depths@.len() == n,
                forall|j: int| 0 <= j < n ==> depths@[j] == creation_depth(#[trigger] actions@[j]@),
                i <= n,
                forall|k: int| 0 <= k < order@.len() ==> order@[k] < n
                    && creates_local_folder(actions@[order@[k] as int]@)
                    && (depths@[order@[k] as int] < d || (depths@[order@[k] as int] == d && order@[k] < i)),
                forall|k: int, l: int| 0 <= k < l < order@.len() ==> created_before(actions@, order@[k] as int, order@[l] as int),
                forall|j: int| 0 <= j < n && creates_local_folder(#[trigger] actions@[j]@)
                    && (depths@[j] < d || (depths@[j] == d && j < i))
                    ==> order@.contains(j as usize),
            decreases n - i,
        {
            if depths[i] == d && creates_local_folder_exec(&actions[i]) {
                let ghost before = order@;
                order.push(i);
                proof {
                    assert forall|j: int| 0 <= j < n && creates_local_folder(#[trigger] actions@[j]@)
                        && (depths@[j] < d || (depths@[j] == d && j < i + 1))
                        implies order@.contains(j as usize) by {
                        if j == i as int {
                            assert(order@[before.len() as int] == i);
                        } else {
                            assert(before.contains(j as usize));
                            let w = choose|w: int| 0 <= w < before.len() && before[w] == j as usize;
                            assert(order@[w] == j as usize);
                        }
                    }
                }
            }
            i = i + 1;
        }
        if d == max_depth {
            break;
        }
        d = d + 1;
    }
    order
}

/// The number of `/` in two joined paths is the sum of theirs.
proof fn lemma_depth_concat(a: Seq<char>, b: Seq<char>)
    ensures
        depth(a + b) == depth(a) + depth(b),
    decreases b.len(),
{
    if b.len() == 0 {
        assert(a + b =~= a);
    } else {
        assert((a + b).drop_last() =~= a + b.drop_last());
        lemma_depth_concat(a, b.drop_last());
    }
}

/// A path below another has more `/` than it.
pub proof fn lemma_descendant_deeper(child: Seq<char>, parent: Seq<char>)
    requires
        strict_descendant(child, parent),
    ensures
        depth(child) > depth(parent),
{
    let n = parent.len() as int;
    let rest = child.subrange(n, child.len() as int);
    assert(child =~= parent + rest);
    lemma_depth_concat(parent, rest);
    let tail = rest.subrange(1, rest.len() as int);
    assert(rest =~= seq!['/'] + tail);
    lemma_depth_concat(seq!['/'], tail);
    assert(seq!['/'].drop_last() =~= Seq::<char>::empty());
}

/// Parents are created before their children: where two local folder
/// creations have one path below the other, the upper one comes first in
/// the creation order.
pub proof fn parents_created_first(actions: Seq<SyncAction>, order: Seq<usize>, k: int, l: int)
    requires
        is_creation_order(actions, order),
        0 <= k < order.len(),
        0 <= l < order.len(),
        actions[order[k] as int]@.relative_path is Some,
        actions[order[l] as int]@.relative_path is Some,
        strict_descendant(actions[order[l] as int]@.relative_path->0, actions[order[k] as int]@.relative_path->0),
    ensures
        k < l,
{
    lemma_descendant_deeper(actions[order[l] as int]@.relative_path->0, actions[order[k] as int]@.relative_path->0);
    if l < k {
        assert(created_before(actions, order[l] as int, order[k] as int));
    }
}

/// The result of a folder creation the executor answered with nothing.
pub fn missing_folder_result() -> (r: ActionResult)
    ensures
        !r.success && !r.deferred && r.cloud_file is None && opt_str(r.error_message) == Some("目录创建未返回结果"@),
{
    ActionResult { success: false, error_message: Some("目录创建未返回结果".to_owned()), deferred: false, cloud_file: None }
}

/// The result of a folder creation whose baseline could not be settled:
/// it counts as a deferred failure, keeping the cloud folder it reports.
pub fn unsettled_folder(result: ActionResult, error: &str) -> (r: ActionResult)
    ensures
        !r.success && r.deferred && r.cloud_file == result.cloud_file
            && opt_str(r.error_message) == Some("云端目录已创建，但本地基线结算失败，等待重新收敛："@ + error@),
{
    ActionResult {
        success: false,
        error_message: Some("云端目录已创建，但本地基线结算失败，等待重新收敛：".to_owned().concat(error)),
        deferred: true,
        cloud_file: result.cloud_file,
    }
}

/// The positions below `n` that are not in `taken`, in order.
pub fn remaining_positions(n: usize, taken: &Vec<usize>) -> (r: Vec<usize>)
    ensures
        forall|k: int| 0 <= k < r@.len() ==> #[trigger] r@[k] < n && !taken@.contains(r@[k]),
        forall|i: int| 0 <= i < n && !taken@.contains(i as usize) ==> #[trigger] r@.contains(i as usize),
        forall|k: int, l: int| 0 <= k < l < r@.len() ==> r@[k] < r@[l],
{
    let mut r: Vec<usize> = Vec::new();
    let mut i: usize = 0;
    while i < n
        invariant
            i <= n,
            forall|k: int| 0 <= k < r@.len() ==> #[trigger] r@[k] < i && !taken@.contains(r@[k]),
            forall|x: int| 0 <= x < i && !taken@.contains(x as usize) ==> #[trigger] r@.contains(x as usize),
            forall|k: int, l: int| 0 <= k < l < r@.len() ==> r@[k] < r@[l],
        decreases n - i,
    {
        let mut found = false;
        let mut j: usize = 0;
        while j < taken.len()
            invariant
                j <= taken@.len(),
                found == exists|y: int| 0 <= y < j && taken@[y] == i,
            decreases taken@.len() - j,
        {
            if taken[j] == i {
                found = true;
            }
            j = j + 1;
        }
        if !found {
            let ghost before = r@;
            r.push(i);
            proof {
                assert forall|x: int| 0 <= x < i + 1 && !taken@.contains(x as usize) implies #[trigger] r@.contains(x as usize) by {
                    if x == i as int {
                        assert(r@[before.len() as int] == i);
                    } else {
                        assert(before.contains(x as usize));
                        let k = choose|k: int| 0 <= k < before.len() && before[k] == x as usize;
                        assert(r@[k] == x as usize);
                    }
                }
            }
        } else {
            proof {
                let y = choose|y: int| 0 <= y < taken@.len() && taken@[y] == i;
                assert(taken@.contains(i));
            }
        }
        i = i + 1;
    }
    r
}

/// The results in action order: each position takes the result placed for
/// it; a position without one failed with "动作未执行".
pub fn results_in_order(slots: Vec<Option<ActionResult>>) -> (r: Vec<ActionResult>)
    ensures
        r@.len() == slots@.len(),
        forall|i: int| 0 <= i < slots@.len() ==> match #[trigger] slots@[i] {
            Some(res) => r@[i] == res,
            None => !r@[i].success && !r@[i].deferred && r@[i].cloud_file is None
                && opt_str(r@[i].error_message) == Some("动作未执行"@),
        },
{
    let ghost orig = slots@;
    let mut slots = slots;
    let mut out: Vec<ActionResult> = Vec::new();
    let n = slots.len();
    while slots.len() > 0
        invariant
            slots@ == orig.take(slots@.len() as int),
            out@.len() == n - slots@.len(),
            n == orig.len(),
            forall|i: int| 0 <= i < out@.len() ==> match #[trigger] orig[n - 1 - i] {
                Some(res) => out@[i] == res,
                None => !out@[i].success && !out@[i].deferred && out@[i].cloud_file is None
                    && opt_str(out@[i].error_message) == Some("动作未执行"@),
            },
        decreases slots@.len(),
    {
        let ghost before = slots@;
        let slot = slots.pop().unwrap();
        assert(before.drop_last() =~= orig.take(before.len() - 1));
        let res = match slot {
            Some(res) => res,
            None => ActionResult { success: false, error_message: Some("动作未执行".to_owned()), deferred: false, cloud_file: None },
        };
        out.push(res);
    }
    let mut r: Vec<ActionResult> = Vec::new();
    while out.len() > 0
        invariant
            n == orig.len(),
            out@.len() + r@.len() == n,
            forall|i: int| 0 <= i < out@.len() ==> match #[trigger] orig[n - 1 - i] {
                Some(res) => out@[i] == res,
                None => !out@[i].success && !out@[i].deferred && out@[i].cloud_file is None
                    && opt_str(out@[i].error_message) == Some("动作未执行"@),
            },
            forall|i: int| 0 <= i < r@.len() ==> match #[trigger] orig[i] {
                Some(res) => r@[i] == res,
                None => !r@[i].success && !r@[i].deferred && r@[i].cloud_file is None
                    && opt_str(r@[i].error_message) == Some("动作未执行"@),
            },
        decreases out@.len(),
    {
        let ghost k = r@.len() as int;
        let ghost last = out@.len() - 1;
        assert(n - 1 - last == k);
        let res = out.pop().unwrap();
        r.push(res);
        assert(match orig[k] {
            Some(x) => r@[k] == x,
            None => !r@[k].success && !r@[k].deferred && r@[k].cloud_file is None
                && opt_str(r@[k].error_message) == Some("动作未执行"@),
        });
    }
    r
}

} // verus!
