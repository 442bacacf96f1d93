//! Relative-path algebra over `/`-separated paths.
//!
//! Paths are compared as sequences of Unicode scalar values. A path lies in the
//! subtree of a root when it equals the root or continues it after a `/`.

use vstd::prelude::*;
use vstd::string::*;

verus! {

/// `path` equals `root` or is a strict descendant of it.
pub open spec fn in_subtree(path: Seq<char>, root: Seq<char>) -> bool {
    path == root || strict_descendant(path, root)
}

/// `path` continues `root` after a `/` separator.
pub open spec fn strict_descendant(path: Seq<char>, root: Seq<char>) -> bool {
    &&& path.len() > root.len()
    &&& path.subrange(0, root.len() as int) == root
    &&& path[root.len() as int] == '/'
}

/// Two paths are equal or one is an ancestor of the other.
pub open spec fn overlap(left: Seq<char>, right: Seq<char>) -> bool {
    in_subtree(left, right) || in_subtree(right, left)
}

/// `prefix` is a prefix of `s`.
pub open spec fn has_prefix(s: Seq<char>, prefix: Seq<char>) -> bool {
    prefix.len() <= s.len() && s.subrange(0, prefix.len() as int) == prefix
}

/// Character-wise equality of two string slices.
pub fn str_equal(left: &str, right: &str) -> (equal: bool)
    ensures
        equal == (left@ == right@),
{
    let n = left.unicode_len();
    let m = right.unicode_len();
    if n != m {
        return false;
    }
    let mut i: usize = 0;
    while i < n
        invariant
            n == left@.len(),
            m == right@.len(),
            n == m,
            i <= n,
            forall|j: int| 0 <= j < i ==> left@[j] == right@[j],
        decreases n - i,
    {
        if left.get_char(i) != right.get_char(i) {
            return false;
        }
        i = i + 1;
    }
    assert(left@ =~= right@);
    true
}

/// Whether `s` starts with `prefix`.
pub fn starts_with(s: &str, prefix: &str) -> (r: bool)
    ensures
        r == has_prefix(s@, prefix@),
{
    let n = s.unicode_len();
    let m = prefix.unicode_len();
    if m > n {
        return false;
    }
    let mut i: usize = 0;
    while i < m
        invariant
            n == s@.len(),
            m == prefix@.len(),
            m <= n,
            i <= m,
            forall|j: int| 0 <= j < i ==> s@[j] == prefix@[j],
        decreases m - i,
    {
        if s.get_char(i) != prefix.get_char(i) {
            assert(s@.subrange(0, m as int)[i as int] != prefix@[i as int]);
            return false;
        }
        i = i + 1;
    }
    assert(s@.subrange(0, m as int) =~= prefix@);
    true
}

/// Whether `path` equals `root` or lies below it.
pub fn is_in_subtree(path: &str, root: &str) -> (r: bool)
    ensures
        r == in_subtree(path@, root@),
{
    if str_equal(path, root) {
        return true;
    }
    let n = path.unicode_len();
    let m = root.unicode_len();
    if n <= m {
        return false;
    }
    if !starts_with(path, root) {
        return false;
    }
    path.get_char(m) == '/'
}

/// Whether two paths are equal or one is an ancestor of the other.
pub fn paths_overlap(left: &str, right: &str) -> (r: bool)
    ensures
        r == overlap(left@, right@),
{
    is_in_subtree(left, right) || is_in_subtree(right, left)
}


/// Whether `path` lies strictly below `root`.
pub fn is_strict_descendant(path: &str, root: &str) -> (r: bool)
    ensures
        r == strict_descendant(path@, root@),
{
    let n = path.unicode_len();
    let m = root.unicode_len();
    if n <= m {
        return false;
    }
    if !starts_with(path, root) {
        return false;
    }
    path.get_char(m) == '/'
}

/// The `/`-separated segments of a path (an empty path has one empty segment).
pub open spec fn split_segments(path: Seq<char>) -> Seq<Seq<char>>
    decreases path.len(),
{
    if path.len() == 0 {
        seq![Seq::<char>::empty()]
    } else {
        let prefix = split_segments(path.drop_last());
        if path.last() == '/' {
            prefix.push(Seq::<char>::empty())
        } else {
            prefix.update(prefix.len() - 1, prefix.last().push(path.last()))
        }
    }
}

/// Index just after the last `/` in `path`, or 0.
pub open spec fn segment_start(path: Seq<char>) -> int
    decreases path.len(),
{
    if path.len() == 0 {
        0
    } else if path.last() == '/' {
        path.len() as int
    } else {
        segment_start(path.drop_last())
    }
}

proof fn lemma_split_shape(path: Seq<char>)
    ensures
        split_segments(path).len() >= 1,
        0 <= segment_start(path) <= path.len(),
        split_segments(path).last() == path.subrange(segment_start(path), path.len() as int),
    decreases path.len(),
{
    if path.len() > 0 {
        lemma_split_shape(path.drop_last());
        let prefix = split_segments(path.drop_last());
        if path.last() != '/' {
            assert(path.drop_last().subrange(segment_start(path.drop_last()), path.len() - 1).push(path.last())
                =~= path.subrange(segment_start(path), path.len() as int));
        } else {
            assert(path.subrange(path.len() as int, path.len() as int) =~= Seq::<char>::empty());
        }
    } else {
        assert(path.subrange(0, 0) =~= Seq::<char>::empty());
    }
}

/// Whether `path` has a segment equal to `segment`.
pub fn path_has_segment(path: &str, segment: &str) -> (r: bool)
    ensures
        r == split_segments(path@).contains(segment@),
{
    let n = path.unicode_len();
    let m = segment.unicode_len();
    let mut start: usize = 0;
    let mut found = false;
    let mut i: usize = 0;
    proof {
        lemma_split_shape(path@.take(0));
        assert(path@.take(0) =~= Seq::<char>::empty());
    }
    while i < n
        invariant
            n == path@.len(),
            m == segment@.len(),
            i <= n,
            start <= i,
            start == segment_start(path@.take(i as int)),
            found == split_segments(path@.take(i as int)).drop_last().contains(segment@),
        decreases n - i,
    {
        let c = path.get_char(i);
        proof {
            lemma_split_shape(path@.take(i as int));
            assert(path@.take(i as int + 1).drop_last() =~= path@.take(i as int));
            assert(path@.take(i as int + 1).last() == c);
        }
        if c == '/' {
            let eq = segment_equals(path, start, i, segment);
            proof {
                let prev = split_segments(path@.take(i as int));
                let cur = split_segments(path@.take(i as int + 1));
                assert(cur == prev.push(Seq::<char>::empty()));
                assert(cur.drop_last() =~= prev);
                assert(prev.last() == path@.take(i as int).subrange(start as int, i as int));
                assert(path@.take(i as int).subrange(start as int, i as int) =~= path@.subrange(start as int, i as int));
                assert(prev =~= prev.drop_last().push(prev.last()));
                if found || eq {
                    if eq {
                        assert(prev[prev.len() - 1] == segment@);
                    } else {
                        let j = choose|j: int| 0 <= j < prev.drop_last().len() && prev.drop_last()[j] == segment@;
                        assert(prev[j] == segment@);
                    }
                } else {
                    assert forall|j: int| 0 <= j < prev.len() implies prev[j] != segment@ by {
                        if j < prev.len() - 1 {
                            assert(prev.drop_last()[j] == prev[j]);
                        }
                    }
                }
            }
            found = found || eq;
            start = i + 1;
        } else {
            proof {
                let prev = split_segments(path@.take(i as int));
                let cur = split_segments(path@.take(i as int + 1));
                assert(cur.drop_last() =~= prev.drop_last());
            }
        }
        i = i + 1;
    }
    assert(path@.take(n as int) =~= path@);
    let last_eq = segment_equals(path, start, n, segment);
    proof {
        let all = split_segments(path@);
        lemma_split_shape(path@);
        assert(all =~= all.drop_last().push(all.last()));
        if found || last_eq {
            if last_eq {
                assert(all[all.len() - 1] == segment@);
            } else {
                let j = choose|j: int| 0 <= j < all.drop_last().len() && all.drop_last()[j] == segment@;
                assert(all[j] == segment@);
            }
        } else {
            assert forall|j: int| 0 <= j < all.len() implies all[j] != segment@ by {
                if j < all.len() - 1 {
                    assert(all.drop_last()[j] == all[j]);
                }
            }
        }
    }
    found || last_eq
}

/// Whether the characters `start..end` of `path` equal `segment`.
pub fn segment_equals(path: &str, start: usize, end: usize, segment: &str) -> (r: bool)
    requires
        start <= end <= path@.len(),
    ensures
        r == (path@.subrange(start as int, end as int) == segment@),
{
    let m = segment.unicode_len();
    if end - start != m {
        return false;
    }
    let mut k: usize = 0;
    while k < m
        invariant
            start <= end <= path@.len(),
            m == segment@.len(),
            end - start == m,
            k <= m,
            forall|j: int| 0 <= j < k ==> path@[start + j] == segment@[j],
        decreases m - k,
    {
        if path.get_char(start + k) != segment.get_char(k) {
            assert(path@.subrange(start as int, end as int)[k as int] != segment@[k as int]);
            return false;
        }
        k = k + 1;
    }
    assert(path@.subrange(start as int, end as int) =~= segment@);
    true
}

/// Position of the last `/` in `path`, if any.
pub open spec fn last_slash(path: Seq<char>) -> Option<int>
    decreases path.len(),
{
    if path.len() == 0 {
        None
    } else if path.last() == '/' {
        Some(path.len() - 1)
    } else {
        last_slash(path.drop_last())
    }
}

proof fn lemma_last_slash(path: Seq<char>)
    ensures
        last_slash(path) matches Some(k) ==> 0 <= k < path.len() && path[k] == '/',
    decreases path.len(),
{
    if path.len() > 0 && path.last() != '/' {
        lemma_last_slash(path.drop_last());
    }
}

/// The part of `path` before its last `/`, if it has one.
pub open spec fn parent_of(path: Seq<char>) -> Option<Seq<char>> {
    match last_slash(path) {
        Some(k) => Some(path.subrange(0, k)),
        None => None,
    }
}

/// The part of `path` before its last `/`, if it has one.
pub fn parent_path(path: &str) -> (r: Option<String>)
    ensures
        opt_chars(r) == parent_of(path@),
{
    let n = path.unicode_len();
    let mut i = n;
    assert(path@.take(n as int) =~= path@);
    while i > 0
        invariant
            i <= n,
            n == path@.len(),
            last_slash(path@) == last_slash(path@.take(i as int)),
        decreases i,
    {
        proof {
            assert(path@.take(i as int).drop_last() =~= path@.take(i as int - 1));
            assert(path@.take(i as int).last() == path@[i as int - 1]);
        }
        if path.get_char(i - 1) == '/' {
            proof {
                lemma_last_slash(path@);
            }
            return Some(path.substring_char(0, i - 1).to_owned());
        }
        i = i - 1;
    }
    assert(path@.take(0) =~= Seq::<char>::empty());
    None
}

/// Optional string, as characters.
pub open spec fn opt_chars(o: Option<String>) -> Option<Seq<char>> {
    match o {
        Some(s) => Some(s@),
        None => None,
    }
}

/// Number of `/` separators in a path.
pub open spec fn depth(path: Seq<char>) -> nat
    decreases path.len(),
{
    if path.len() == 0 {
        0
    } else {
        depth(path.drop_last()) + if path.last() == '/' { 1nat } else { 0nat }
    }
}

/// Number of `/` separators in a path.
pub fn path_depth(path: &str) -> (d: usize)
    ensures
        d == depth(path@),
{
    let n = path.unicode_len();
    let mut d: usize = 0;
    let mut i: usize = 0;
    while i < n
        invariant
            i <= n,
            n == path@.len(),
            d == depth(path@.take(i as int)),
            d <= i,
        decreases n - i,
    {
        assert(path@.take(i as int + 1).drop_last() =~= path@.take(i as int));
        if path.get_char(i) == '/' {
            d = d + 1;
        }
        i = i + 1;
    }
    assert(path@.take(n as int) =~= path@);
    d
}


/// A path segment that may appear in a safe relative path: not empty, not
/// `.` or `..`.
pub open spec fn segment_ok(seg: Seq<char>) -> bool {
    seg.len() > 0 && seg != seq!['.'] && seg != seq!['.', '.']
}

/// A relative path that stays under its root: every segment is ok and no
/// character is NUL.
pub open spec fn safe_relative(path: Seq<char>) -> bool {
    &&& forall|k: int| 0 <= k < split_segments(path).len() ==> segment_ok(#[trigger] split_segments(path)[k])
    &&& forall|i: int| 0 <= i < path.len() ==> path[i] != '\0'
}

/// Whether the characters `start..end` of `path` form an ok segment.
fn segment_is_ok(path: &str, start: usize, end: usize) -> (r: bool)
    requires
        start <= end <= path@.len(),
    ensures
        r == segment_ok(path@.subrange(start as int, end as int)),
{
    proof {
        reveal_strlit(".");
        reveal_strlit("..");
        assert("."@ =~= seq!['.']);
        assert(".."@ =~= seq!['.', '.']);
    }
    end > start && !segment_equals(path, start, end, ".") && !segment_equals(path, start, end, "..")
}

/// Whether `path` is a safe relative path (or empty, when that is allowed).
pub fn is_safe_relative_path(path: &str, allow_empty: bool) -> (r: bool)
    ensures
        r == ((allow_empty && path@.len() == 0) || safe_relative(path@)),
{
    let n = path.unicode_len();
    if n == 0 {
        proof {
            assert(path@ =~= Seq::<char>::empty());
            assert(split_segments(path@)[0] == Seq::<char>::empty());
        }
        return allow_empty;
    }
    let mut start: usize = 0;
    let mut i: usize = 0;
    proof {
        lemma_split_shape(path@.take(0));
        assert(path@.take(0) =~= Seq::<char>::empty());
    }
    while i < n
        invariant
            n == path@.len(),
            n > 0,
            i <= n,
            start <= i,
            start == segment_start(path@.take(i as int)),
            forall|k: int| 0 <= k < split_segments(path@.take(i as int)).len() - 1
                ==> segment_ok(#[trigger] split_segments(path@.take(i as int))[k]),
            forall|j: int| 0 <= j < i ==> path@[j] != '\0',
        decreases n - i,
    {
        let c = path.get_char(i);
        proof {
            lemma_split_shape(path@.take(i as int));
            assert(path@.take(i as int + 1).drop_last() =~= path@.take(i as int));
            assert(path@.take(i as int + 1).last() == c);
        }
        if c == '\0' {
            return false;
        }
        if c == '/' {
            let ok = segment_is_ok(path, start, i);
            proof {
                let prev = split_segments(path@.take(i as int));
                assert(prev.last() == path@.take(i as int).subrange(start as int, i as int));
                assert(path@.take(i as int).subrange(start as int, i as int) =~= path@.subrange(start as int, i as int));
                assert(prev[prev.len() - 1] == prev.last());
                if !ok {
                    lemma_split_prefix_kept(path@, i as int + 1, prev.len() - 1);
                }
            }
            if !ok {
                return false;
            }
            start = i + 1;
        } else {
            proof {
                let prev = split_segments(path@.take(i as int));
                let cur = split_segments(path@.take(i as int + 1));
                assert forall|k: int| 0 <= k < cur.len() - 1 implies segment_ok(#[trigger] cur[k]) by {
                    assert(cur[k] == prev[k]);
                }
            }
        }
        i = i + 1;
    }
    assert(path@.take(n as int) =~= path@);
    let last_ok = segment_is_ok(path, start, n);
    proof {
        let all = split_segments(path@);
        lemma_split_shape(path@);
        assert(all[all.len() - 1] == all.last());
    }
    last_ok
}

/// A segment completed at a `/` stays a segment of every longer prefix.
proof fn lemma_split_prefix_kept(path: Seq<char>, m: int, k: int)
    requires
        0 < m <= path.len(),
        0 <= k < split_segments(path.take(m)).len() - 1,
    ensures
        split_segments(path)[k] == split_segments(path.take(m))[k],
        k < split_segments(path).len(),
    decreases path.len() - m,
{
    lemma_split_shape(path.take(m));
    if m < path.len() {
        let next = path.take(m + 1);
        assert(next.drop_last() =~= path.take(m));
        lemma_split_prefix_kept(path, m + 1, k);
    } else {
        assert(path.take(m) =~= path);
    }
}

} // verus!
