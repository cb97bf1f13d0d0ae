//! An association list from string keys to values, with hash-map semantics
//! (at most one entry per key, insert overwrites) but a deterministic entry
//! order, so that contracts can speak about sums and orders of entries.

use vstd::prelude::*;

verus! {

/// A map from string keys to values of type `V`, kept as a vector of entries
/// with pairwise distinct keys.  Its view is the entry sequence itself.
pub struct StrMap<V> {
    entries: Vec<(String, V)>,
}

/// No key occurs in two entries of `s`.
pub open spec fn unique_keys<V>(s: Seq<(Seq<char>, V)>) -> bool {
    forall|i: int, j: int|
        0 <= i < j < s.len() ==> (#[trigger] s[i]).0 != (#[trigger] s[j]).0
}

/// Some entry of `s` carries the key `k`.
pub open spec fn map_has<V>(s: Seq<(Seq<char>, V)>, k: Seq<char>) -> bool {
    exists|i: int| 0 <= i < s.len() && (#[trigger] s[i]).0 == k
}

/// The position of the entry carrying `k`; unique when `unique_keys(s)` holds.
pub open spec fn map_idx<V>(s: Seq<(Seq<char>, V)>, k: Seq<char>) -> int {
    choose|i: int| 0 <= i < s.len() && (#[trigger] s[i]).0 == k
}

/// The value stored under `k`.
pub open spec fn map_val<V>(s: Seq<(Seq<char>, V)>, k: Seq<char>) -> V {
    s[map_idx(s, k)].1
}

/// The entry sequence after storing `v` under `k`: the entry carrying `k` is
/// overwritten in place when present, else a new entry is appended.
pub open spec fn map_insert<V>(s: Seq<(Seq<char>, V)>, k: Seq<char>, v: V) -> Seq<
    (Seq<char>, V),
> {
    if map_has(s, k) {
        s.update(map_idx(s, k), (k, v))
    } else {
        s.push((k, v))
    }
}

/// When keys are unique, the entry at a position with key `k` is the entry
/// that `map_idx` and `map_val` describe.
pub proof fn lemma_key_at_index<V>(s: Seq<(Seq<char>, V)>, k: Seq<char>, i: int)
    requires
        unique_keys(s),
        0 <= i < s.len(),
        s[i].0 == k,
    ensures
        map_has(s, k),
        map_idx(s, k) == i,
        map_val(s, k) == s[i].1,
{
    assert(map_has(s, k));
    let j = map_idx(s, k);
    assert(0 <= j < s.len() && s[j].0 == k);
    if i != j {
        assert(s[i].0 != s[j].0);
    }
}

/// `map_insert` keeps keys unique, stores `v` under `k`, and grows the entry
/// sequence exactly when `k` was absent.
pub proof fn lemma_map_insert_props<V>(s: Seq<(Seq<char>, V)>, k: Seq<char>, v: V)
    requires
        unique_keys(s),
    ensures
        unique_keys(map_insert(s, k, v)),
        map_has(map_insert(s, k, v), k),
        map_val(map_insert(s, k, v), k) == v,
        map_insert(s, k, v).len() == if map_has(s, k) {
            s.len()
        } else {
            s.len() + 1
        },
{
    let t = map_insert(s, k, v);
    if map_has(s, k) {
        let i = map_idx(s, k);
        assert(0 <= i < s.len() && s[i].0 == k);
        assert forall|p: int| 0 <= p < t.len() implies (#[trigger] t[p]).0 == s[p].0 by {
            if p == i {
                assert(t[p].0 == k);
            }
        }
        assert forall|p: int, q: int|
            0 <= p < q < t.len() implies (#[trigger] t[p]).0 != (#[trigger] t[q]).0 by {
            assert(t[p].0 == s[p].0 && t[q].0 == s[q].0);
        }
        lemma_key_at_index(t, k, i);
    } else {
        assert(t == s.push((k, v)));
        assert forall|p: int, q: int|
            0 <= p < q < t.len() implies (#[trigger] t[p]).0 != (#[trigger] t[q]).0 by {
            if q == t.len() - 1 {
                assert(t[p].0 == s[p].0);
                assert(s[p].0 != k);
            } else {
                assert(t[p].0 == s[p].0 && t[q].0 == s[q].0);
            }
        }
        lemma_key_at_index(t, k, s.len() as int);
    }
}

impl<V> View for StrMap<V> {
    type V = Seq<(Seq<char>, V)>;

    closed spec fn view(&self) -> Seq<(Seq<char>, V)> {
        self.entries@.map_values(|e: (String, V)| (e.0@, e.1))
    }
}

impl<V> StrMap<V> {
    /// The entries carry pairwise distinct keys.
    pub open spec fn wf(&self) -> bool {
        unique_keys(self@)
    }

    /// An empty map.
    pub fn new() -> (r: StrMap<V>)
        ensures
            r@ == Seq::<(Seq<char>, V)>::empty(),
            r.wf(),
    {
        let r = StrMap { entries: Vec::new() };
        proof {
            assert(r@ =~= Seq::<(Seq<char>, V)>::empty());
        }
        r
    }

    /// The number of entries.
    pub fn len(&self) -> (r: usize)
        ensures
            r == self@.len(),
    {
        self.entries.len()
    }

    /// The key of the entry at position `i`.
    pub fn key_at(&self, i: usize) -> (r: &String)
        requires
            i < self@.len(),
        ensures
            r@ == self@[i as int].0,
    {
        &self.entries[i].0
    }

    /// The value of the entry at position `i`.
    pub fn val_at(&self, i: usize) -> (r: &V)
        requires
            i < self@.len(),
        ensures
            *r == self@[i as int].1,
    {
        &self.entries[i].1
    }

    /// Whether some entry carries the key `k`.
    pub fn contains_key(&self, k: &String) -> (r: bool)
        requires
            self.wf(),
        ensures
            r == map_has(self@, k@),
    {
        let n = self.entries.len();
        let mut i: usize = 0;
        while i < n
            invariant
                n == self@.len(),
                i <= n,
                forall|j: int| 0 <= j < i ==> (#[trigger] self@[j]).0 != k@,
            decreases n - i,
        {
            if self.entries[i].0.eq(k) {
                proof {
                    assert(self@[i as int].0 == k@);
                }
                return true;
            }
            i += 1;
        }
        false
    }

    /// The value stored under `k`, if any.
    pub fn get(&self, k: &String) -> (r: Option<&V>)
        requires
            self.wf(),
        ensures
            match r {
                Some(v) => map_has(self@, k@) && *v == map_val(self@, k@),
                None => !map_has(self@, k@),
            },
    {
        let n = self.entries.len();
        let mut i: usize = 0;
        while i < n
            invariant
                n == self@.len(),
                i <= n,
                self.wf(),
                forall|j: int| 0 <= j < i ==> (#[trigger] self@[j]).0 != k@,
            decreases n - i,
        {
            if self.entries[i].0.eq(k) {
                proof {
                    lemma_key_at_index(self@, k@, i as int);
                }
                return Some(&self.entries[i].1);
            }
            i += 1;
        }
        None
    }

    /// Stores `v` under `k`, overwriting the entry carrying `k` if one exists.
    pub fn insert(&mut self, k: String, v: V)
        requires
            old(self).wf(),
        ensures
            final(self)@ == map_insert(old(self)@, k@, v),
            final(self).wf(),
    {
        let n = self.entries.len();
        let mut i: usize = 0;
        while i < n
            invariant
                n == self@.len(),
                i <= n,
                self.wf(),
                *self == *old(self),
                forall|j: int| 0 <= j < i ==> (#[trigger] self@[j]).0 != k@,
            decreases n - i,
        {
            if self.entries[i].0.eq(&k) {
                proof {
                    lemma_key_at_index(self@, k@, i as int);
                }
                self.entries.set(i, (k, v));
                proof {
                    assert(self@ =~= map_insert(old(self)@, k@, v));
                    assert forall|p: int, q: int|
                        0 <= p < q < self@.len() implies (#[trigger] self@[p]).0 != (
                    #[trigger] self@[q]).0 by {
                        assert(old(self)@[p].0 == self@[p].0);
                        assert(old(self)@[q].0 == self@[q].0);
                    }
                }
                return ;
            }
            i += 1;
        }
        proof {
            assert(!map_has(self@, k@));
        }
        self.entries.push((k, v));
        proof {
            assert(self@ =~= old(self)@.push((k@, v)));
            assert forall|p: int, q: int|
                0 <= p < q < self@.len() implies (#[trigger] self@[p]).0 != (
            #[trigger] self@[q]).0 by {
                if q < self@.len() - 1 {
                    assert(old(self)@[p].0 == self@[p].0);
                    assert(old(self)@[q].0 == self@[q].0);
                } else {
                    assert(old(self)@[p].0 != k@);
                }
            }
        }
    }
}

} // verus!
