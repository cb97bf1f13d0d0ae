//! A set of strings kept as a vector of pairwise distinct elements, in
//! insertion order.  Used for the token ids issued to one owner and for the
//! token ids issued under one token type.

use vstd::prelude::*;

verus! {

/// A set of strings, viewed as the sequence of its elements.
pub struct StrSet {
    items: Vec<String>,
}

/// `k` occurs in `s`.
pub open spec fn set_has(s: Seq<Seq<char>>, k: Seq<char>) -> bool {
    exists|i: int| 0 <= i < s.len() && #[trigger] s[i] == k
}

/// The element sequence after adding `k`: unchanged when `k` is already
/// present, else `k` is appended.
pub open spec fn set_insert(s: Seq<Seq<char>>, k: Seq<char>) -> Seq<Seq<char>> {
    if set_has(s, k) {
        s
    } else {
        s.push(k)
    }
}

impl View for StrSet {
    type V = Seq<Seq<char>>;

    closed spec fn view(&self) -> Seq<Seq<char>> {
        self.items@.map_values(|s: String| s@)
    }
}

impl StrSet {
    /// The elements are pairwise distinct.
    pub open spec fn wf(&self) -> bool {
        forall|i: int, j: int| 0 <= i < j < self@.len() ==> self@[i] != self@[j]
    }

    /// An empty set.
    pub fn new() -> (r: StrSet)
        ensures
            r@ == Seq::<Seq<char>>::empty(),
            r.wf(),
    {
        let r = StrSet { items: Vec::new() };
        proof {
            assert(r@ =~= Seq::<Seq<char>>::empty());
        }
        r
    }

    /// The number of elements.
    pub fn len(&self) -> (r: usize)
        ensures
            r == self@.len(),
    {
        self.items.len()
    }

    /// The element at position `i`.
    pub fn item_at(&self, i: usize) -> (r: &String)
        requires
            i < self@.len(),
        ensures
            r@ == self@[i as int],
    {
        &self.items[i]
    }

    /// Whether `k` is an element.
    pub fn contains(&self, k: &String) -> (r: bool)
        ensures
            r == set_has(self@, k@),
    {
        let n = self.items.len();
        let mut i: usize = 0;
        while i < n
            invariant
                n == self@.len(),
                i <= n,
                forall|j: int| 0 <= j < i ==> #[trigger] self@[j] != k@,
            decreases n - i,
        {
            if self.items[i].eq(k) {
                proof {
                    assert(self@[i as int] == k@);
                }
                return true;
            }
            i += 1;
        }
        false
    }

    /// A copy of the set with `k` added.
    pub fn with_inserted(&self, k: &String) -> (r: StrSet)
        requires
            self.wf(),
        ensures
            r@ == set_insert(self@, k@),
            r.wf(),
    {
        let n = self.items.len();
        let mut items: Vec<String> = Vec::new();
        let mut i: usize = 0;
        while i < n
            invariant
                n == self@.len(),
                i <= n,
                items@.len() == i,
                forall|j: int| 0 <= j < i ==> (#[trigger] items@[j])@ == self@[j],
            decreases n - i,
        {
            items.push(self.items[i].clone());
            i += 1;
        }
        let mut r = StrSet { items };
        proof {
            assert(r@ =~= self@);
        }
        if !self.contains(k) {
            r.items.push(k.clone());
            proof {
                assert(r@ =~= self@.push(k@));
                assert forall|p: int, q: int| 0 <= p < q < r@.len() implies r@[p] != r@[q] by {
                    if q == r@.len() - 1 {
                        assert(r@[p] == self@[p]);
                        assert(self@[p] != k@);
                    } else {
                        assert(r@[p] == self@[p] && r@[q] == self@[q]);
                    }
                }
            }
        }
        r
    }
}

} // verus!
