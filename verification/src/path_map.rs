//! An insertion-ordered map from relative paths to values.
//!
//! Keys are `String`s compared by their characters; each key occurs at most
//! once. The map's view is a `Map` from key characters to value views, and
//! [`PathMap::keys`] gives the keys in insertion order.

use vstd::prelude::*;

verus! {

/// Map from relative paths to values, kept in insertion order.
#[derive(Debug)]
pub struct PathMap<V> {
    entries: Vec<(String, V)>,
}

impl<V: View> PathMap<V> {
    /// Key at position `i`, as characters.
    pub closed spec fn key_at(self, i: int) -> Seq<char> {
        self.entries@[i].0@
    }

    /// Value view at position `i`.
    pub closed spec fn value_at(self, i: int) -> V::V {
        self.entries@[i].1@
    }

    /// Number of entries.
    pub closed spec fn size(self) -> nat {
        self.entries@.len()
    }

    /// The keys in insertion order.
    pub open spec fn keys(self) -> Seq<Seq<char>> {
        Seq::new(self.size(), |i: int| self.key_at(i))
    }

    /// No key occurs twice.
    pub open spec fn wf(self) -> bool {
        self.keys().no_duplicates()
    }

    /// Position of key `k` (meaningful when `k` is a key).
    pub open spec fn index_of_key(self, k: Seq<char>) -> int {
        self.keys().index_of(k)
    }

    /// The mapping from keys to value views.
    pub open spec fn as_map(self) -> Map<Seq<char>, V::V> {
        Map::new(|k: Seq<char>| self.keys().contains(k), |k: Seq<char>| self.value_at(self.index_of_key(k)))
    }

    /// Value view stored under position of key `k`, as a `Map` lookup.
    pub proof fn lemma_lookup(self, i: int)
        requires
            self.wf(),
            0 <= i < self.size(),
        ensures
            self.as_map().contains_key(self.key_at(i)),
            self.as_map()[self.key_at(i)] == self.value_at(i),
            self.index_of_key(self.key_at(i)) == i,
    {
        assert(self.keys()[i] == self.key_at(i));
        assert(self.keys().contains(self.key_at(i)));
        let j = self.index_of_key(self.key_at(i));
        assert(self.keys()[j] == self.key_at(i));
    }

    /// An empty map.
    pub fn new() -> (m: Self)
        ensures
            m.wf(),
            m.size() == 0,
            m.keys() == Seq::<Seq<char>>::empty(),
            m.as_map() == Map::<Seq<char>, V::V>::empty(),
    {
        let m = PathMap { entries: Vec::new() };
        assert(m.keys() =~= Seq::<Seq<char>>::empty());
        assert(m.as_map() =~= Map::<Seq<char>, V::V>::empty());
        m
    }

    /// Number of entries.
    pub fn len(&self) -> (n: usize)
        ensures
            n == self.size(),
            n == self.keys().len(),
    {
        self.entries.len()
    }

    /// Key at position `i`.
    pub fn key(&self, i: usize) -> (k: &String)
        requires
            i < self.size(),
        ensures
            k@ == self.key_at(i as int),
            k@ == self.keys()[i as int],
    {
        &self.entries[i].0
    }

    /// Value at position `i`.
    pub fn value(&self, i: usize) -> (v: &V)
        requires
            i < self.size(),
        ensures
            v@ == self.value_at(i as int),
    {
        &self.entries[i].1
    }

    /// Position of `key`, if present.
    pub fn find(&self, key: &str) -> (r: Option<usize>)
        requires
            self.wf(),
        ensures
            r is None <==> !self.as_map().contains_key(key@),
            r is None <==> !self.keys().contains(key@),
            r matches Some(i) ==> i < self.size() && self.key_at(i as int) == key@
                && self.as_map()[key@] == self.value_at(i as int),
    {
        let mut i: usize = 0;
        while i < self.entries.len()
            invariant
                self.wf(),
                i <= self.size(),
                forall|j: int| 0 <= j < i ==> self.key_at(j) != key@,
            decreases self.size() - i,
        {
            if crate::paths::str_equal(self.entries[i].0.as_str(), key) {
                proof {
                    self.lemma_lookup(i as int);
                }
                return Some(i);
            }
            i = i + 1;
        }
        proof {
            if self.keys().contains(key@) {
                let j = choose|j: int| 0 <= j < self.keys().len() && self.keys()[j] == key@;
                assert(self.key_at(j) == key@);
            }
        }
        None
    }

    /// Whether `key` is present.
    pub fn contains_key(&self, key: &str) -> (b: bool)
        requires
            self.wf(),
        ensures
            b == self.as_map().contains_key(key@),
    {
        self.find(key).is_some()
    }

    /// Value under `key`, if present.
    pub fn get(&self, key: &str) -> (r: Option<&V>)
        requires
            self.wf(),
        ensures
            r is Some == self.as_map().contains_key(key@),
            r matches Some(v) ==> v@ == self.as_map()[key@],
    {
        match self.find(key) {
            Some(i) => Some(&self.entries[i].1),
            None => None,
        }
    }

    /// Insert or replace the value under `key`. A new key goes to the end of
    /// the key order; a replaced key keeps its position.
    pub fn insert(&mut self, key: String, value: V)
        requires
            old(self).wf(),
        ensures
            final(self).wf(),
            final(self).as_map() == old(self).as_map().insert(key@, value@),
            old(self).keys().contains(key@) ==> final(self).keys() == old(self).keys(),
            !old(self).keys().contains(key@) ==> final(self).keys() == old(self).keys().push(key@),
    {
        let ghost old_self = *self;
        let ghost kv = key@;
        let ghost vv = value@;
        match self.find(key.as_str()) {
            Some(i) => {
                self.entries.set(i, (key, value));
                proof {
                    assert(self.keys() =~= old_self.keys());
                    assert(self.value_at(i as int) == vv);
                    assert forall|k: Seq<char>| #[trigger] self.as_map().contains_key(k)
                        == old_self.as_map().insert(kv, vv).contains_key(k) by {}
                    assert forall|k: Seq<char>| self.as_map().contains_key(k) implies
                        #[trigger] self.as_map()[k] == old_self.as_map().insert(kv, vv)[k] by {
                        let j = self.index_of_key(k);
                        assert(self.keys()[j] == k);
                        assert(old_self.index_of_key(k) == j);
                        if j == i {
                            assert(k == kv);
                        } else {
                            assert(old_self.keys()[i as int] == kv);
                            assert(old_self.keys()[j] == k);
                            assert(k != kv);
                            old_self.lemma_lookup(j);
                            assert(self.value_at(j) == old_self.value_at(j));
                        }
                    }
                    assert(self.as_map() =~= old_self.as_map().insert(kv, vv));
                }
            },
            None => {
                self.entries.push((key, value));
                proof {
                    let n = old_self.size() as int;
                    assert(self.keys() =~= old_self.keys().push(kv));
                    assert(self.keys()[n] == kv);
                    assert forall|k: Seq<char>| #[trigger] self.as_map().contains_key(k)
                        == old_self.as_map().insert(kv, vv).contains_key(k) by {
                        if k == kv {
                            assert(self.keys().contains(k));
                        }
                        if k != kv && old_self.keys().contains(k) {
                            let j = choose|j: int| 0 <= j < old_self.keys().len() && old_self.keys()[j] == k;
                            assert(self.keys()[j] == k);
                        }
                        if k != kv && self.keys().contains(k) {
                            let j = choose|j: int| 0 <= j < self.keys().len() && self.keys()[j] == k;
                            assert(old_self.keys()[j] == k);
                        }
                    }
                    assert forall|k: Seq<char>| self.as_map().contains_key(k) implies
                        #[trigger] self.as_map()[k] == old_self.as_map().insert(kv, vv)[k] by {
                        let j = self.index_of_key(k);
                        assert(self.keys()[j] == k);
                        if k == kv {
                            self.lemma_lookup(n);
                        } else {
                            assert(j < n);
                            assert(old_self.keys()[j] == k);
                            old_self.lemma_lookup(j);
                        }
                    }
                    assert(self.as_map() =~= old_self.as_map().insert(kv, vv));
                }
            },
        }
    }

    /// Remove `key`, returning its value if it was present. The other keys
    /// keep their relative order.
    pub fn remove(&mut self, key: &str) -> (r: Option<V>)
        requires
            old(self).wf(),
        ensures
            final(self).wf(),
            final(self).as_map() == old(self).as_map().remove(key@),
            r is Some == old(self).as_map().contains_key(key@),
            r matches Some(v) ==> v@ == old(self).as_map()[key@],
            r is Some ==> final(self).keys() == old(self).keys().remove(old(self).index_of_key(key@)),
            r is None ==> final(self).keys() == old(self).keys(),
    {
        let ghost old_self = *self;
        match self.find(key) {
            Some(i) => {
                let (_, v) = self.entries.remove(i);
                proof {
                    let kv = key@;
                    assert(self.keys() =~= old_self.keys().remove(i as int));
                    old_self.lemma_lookup(i as int);
                    assert forall|a: int, b: int| 0 <= a < b < self.keys().len() implies
                        self.keys()[a] != self.keys()[b] by {
                        let a2 = if a < i { a } else { a + 1 };
                        let b2 = if b < i { b } else { b + 1 };
                        assert(old_self.keys()[a2] != old_self.keys()[b2]);
                    }
                    assert forall|k: Seq<char>| #[trigger] self.as_map().contains_key(k)
                        == old_self.as_map().remove(kv).contains_key(k) by {
                        if self.keys().contains(k) {
                            let j = choose|j: int| 0 <= j < self.keys().len() && self.keys()[j] == k;
                            if j < i { assert(old_self.keys()[j] == k); }
                            else { assert(old_self.keys()[j + 1] == k); }
                        }
                        if k != kv && old_self.keys().contains(k) {
                            let j = choose|j: int| 0 <= j < old_self.keys().len() && old_self.keys()[j] == k;
                            if j < i { assert(self.keys()[j] == k); }
                            else { assert(self.keys()[j - 1] == k); }
                        }
                    }
                    assert forall|k: Seq<char>| self.as_map().contains_key(k) implies
                        #[trigger] self.as_map()[k] == old_self.as_map().remove(kv)[k] by {
                        let j = self.index_of_key(k);
                        assert(self.keys()[j] == k);
                        if j < i {
                            assert(old_self.keys()[j] == k);
                            old_self.lemma_lookup(j);
                        } else {
                            assert(old_self.keys()[j + 1] == k);
                            old_self.lemma_lookup(j + 1);
                        }
                    }
                    assert(self.as_map() =~= old_self.as_map().remove(kv));
                }
                Some(v)
            },
            None => {
                proof {
                    assert(self.as_map() =~= old_self.as_map().remove(key@));
                }
                None
            },
        }
    }
}

} // verus!
