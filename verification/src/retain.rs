//! Order-preserving removal of vector elements by a precomputed mask.

use vstd::prelude::*;

verus! {

/// The elements of `s` whose mask bit is set, in order.
pub open spec fn select<T>(s: Seq<T>, mask: Seq<bool>) -> Seq<T>
    decreases s.len(),
{
    if s.len() == 0 || mask.len() == 0 {
        Seq::empty()
    } else {
        let prefix = select(s.drop_last(), mask.drop_last());
        if mask.last() {
            prefix.push(s.last())
        } else {
            prefix
        }
    }
}

/// Selecting by a mask that is a predicate's value on each element is
/// filtering by that predicate.
pub proof fn lemma_select_is_filter<T>(s: Seq<T>, mask: Seq<bool>, pred: spec_fn(T) -> bool)
    requires
        mask.len() == s.len(),
        forall|i: int| 0 <= i < s.len() ==> mask[i] == pred(s[i]),
    ensures
        select(s, mask) == s.filter(pred),
    decreases s.len(),
{
    reveal(Seq::filter);
    if s.len() > 0 {
        lemma_select_is_filter(s.drop_last(), mask.drop_last(), pred);
        assert(mask.last() == pred(s.last()));
    }
}

/// Filtering the empty sequence gives the empty sequence.
pub proof fn lemma_filter_empty<T>(s: Seq<T>, pred: spec_fn(T) -> bool)
    requires
        s.len() == 0,
    ensures
        s.filter(pred) == Seq::<T>::empty(),
{
    reveal(Seq::filter);
    assert(s.filter(pred) =~= Seq::<T>::empty());
}

/// Filtering one more element of a prefix appends it exactly when it passes.
pub proof fn lemma_filter_take_step<T>(s: Seq<T>, i: int, pred: spec_fn(T) -> bool)
    requires
        0 <= i < s.len(),
    ensures
        s.take(i + 1).filter(pred) == if pred(s[i]) {
            s.take(i).filter(pred).push(s[i])
        } else {
            s.take(i).filter(pred)
        },
{
    reveal(Seq::filter);
    assert(s.take(i + 1).drop_last() =~= s.take(i));
    assert(s.take(i + 1).last() == s[i]);
}

/// Keep exactly the elements of `v` whose mask bit is set, in order.
pub fn retain_by_mask<T>(v: &mut Vec<T>, mask: &Vec<bool>)
    requires
        mask@.len() == old(v)@.len(),
    ensures
        final(v)@ == select(old(v)@, mask@),
{
    let ghost orig = v@;
    let n = v.len();
    let mut rest: Vec<T> = Vec::new();
    std::mem::swap(&mut rest, v);
    let mut kept: Vec<T> = Vec::new();
    let mut i: usize = 0;
    assert(orig.subrange(0, n as int) =~= orig);
    assert(orig.take(0) =~= Seq::<T>::empty());
    while i < n
        invariant
            n == orig.len(),
            mask@.len() == n,
            i <= n,
            rest@ == orig.subrange(i as int, n as int),
            kept@ == select(orig.take(i as int), mask@.take(i as int)),
        decreases n - i,
    {
        let x = rest.remove(0);
        assert(orig.take(i as int + 1).drop_last() =~= orig.take(i as int));
        assert(mask@.take(i as int + 1).drop_last() =~= mask@.take(i as int));
        assert(rest@ =~= orig.subrange(i as int + 1, n as int));
        if mask[i] {
            kept.push(x);
        }
        i = i + 1;
    }
    assert(orig.take(n as int) =~= orig);
    assert(mask@.take(n as int) =~= mask@);
    *v = kept;
}

} // verus!
