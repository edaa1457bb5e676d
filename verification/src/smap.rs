//! Name-keyed association maps with a deterministic order.
//!
//! The engine records function names, resolved variables and captured tables
//! in small maps keyed by strings. Determinism of the whole recovery run is a
//! correctness requirement, so the maps keep insertion order and every lookup
//! takes the first match. A map's view is its entry sequence with the keys as
//! character sequences.

use vstd::prelude::*;
use crate::strutil::str_eq;

verus! {

/// First-match lookup over an association view.
pub open spec fn spec_get<V>(s: Seq<(Seq<char>, V)>, k: Seq<char>) -> Option<V>
    decreases s.len(),
{
    if s.len() == 0 {
        None
    } else if s[0].0 == k {
        Some(s[0].1)
    } else {
        spec_get(s.skip(1), k)
    }
}

/// Binding `k` to `v`: the first matching entry is overwritten in place,
/// and an absent key is appended.
pub open spec fn sm_insert<V>(s: Seq<(Seq<char>, V)>, k: Seq<char>, v: V) -> Seq<
    (Seq<char>, V),
>
    decreases s.len(),
{
    if s.len() == 0 {
        seq![(k, v)]
    } else if s[0].0 == k {
        seq![(k, v)] + s.skip(1)
    } else {
        seq![s[0]] + sm_insert(s.skip(1), k, v)
    }
}

/// Unbinding `k`: the first matching entry is dropped.
pub open spec fn sm_remove<V>(s: Seq<(Seq<char>, V)>, k: Seq<char>) -> Seq<(Seq<char>, V)>
    decreases s.len(),
{
    if s.len() == 0 {
        s
    } else if s[0].0 == k {
        s.skip(1)
    } else {
        seq![s[0]] + sm_remove(s.skip(1), k)
    }
}

/// Lookup finds the first entry whose key matches.
pub proof fn lemma_get_present<V>(s: Seq<(Seq<char>, V)>, k: Seq<char>, i: int)
    requires
        0 <= i < s.len(),
        s[i].0 == k,
        forall|j: int| 0 <= j < i ==> (#[trigger] s[j]).0 != k,
    ensures
        spec_get(s, k) == Some(s[i].1),
    decreases i,
{
    if i > 0 {
        lemma_get_present(s.skip(1), k, i - 1);
    }
}

/// Lookup misses when no entry's key matches.
pub proof fn lemma_get_absent<V>(s: Seq<(Seq<char>, V)>, k: Seq<char>)
    requires
        forall|j: int| 0 <= j < s.len() ==> (#[trigger] s[j]).0 != k,
    ensures
        spec_get(s, k) == None::<V>,
    decreases s.len(),
{
    if s.len() > 0 {
        lemma_get_absent(s.skip(1), k);
    }
}

/// Overwriting the first match in place realizes `sm_insert`.
pub proof fn lemma_insert_update<V>(s: Seq<(Seq<char>, V)>, k: Seq<char>, v: V, i: int)
    requires
        0 <= i < s.len(),
        s[i].0 == k,
        forall|j: int| 0 <= j < i ==> (#[trigger] s[j]).0 != k,
    ensures
        sm_insert(s, k, v) =~= s.update(i, (k, v)),
    decreases i,
{
    if i == 0 {
        assert(seq![(k, v)] + s.skip(1) =~= s.update(0, (k, v)));
    } else {
        lemma_insert_update(s.skip(1), k, v, i - 1);
        assert(seq![s[0]] + s.skip(1).update(i - 1, (k, v)) =~= s.update(i, (k, v)));
    }
}

/// Appending an absent key realizes `sm_insert`.
pub proof fn lemma_insert_push<V>(s: Seq<(Seq<char>, V)>, k: Seq<char>, v: V)
    requires
        forall|j: int| 0 <= j < s.len() ==> (#[trigger] s[j]).0 != k,
    ensures
        sm_insert(s, k, v) =~= s.push((k, v)),
    decreases s.len(),
{
    if s.len() == 0 {
        assert(seq![(k, v)] =~= s.push((k, v)));
    } else {
        lemma_insert_push(s.skip(1), k, v);
        assert(seq![s[0]] + s.skip(1).push((k, v)) =~= s.push((k, v)));
    }
}

/// Dropping the first match realizes `sm_remove`; a miss leaves the view.
pub proof fn lemma_remove_at<V>(s: Seq<(Seq<char>, V)>, k: Seq<char>, i: int)
    requires
        0 <= i < s.len(),
        s[i].0 == k,
        forall|j: int| 0 <= j < i ==> (#[trigger] s[j]).0 != k,
    ensures
        sm_remove(s, k) =~= s.remove(i),
    decreases i,
{
    if i == 0 {
        assert(s.skip(1) =~= s.remove(0));
    } else {
        lemma_remove_at(s.skip(1), k, i - 1);
        assert(seq![s[0]] + s.skip(1).remove(i - 1) =~= s.remove(i));
    }
}

/// A miss leaves the view unchanged under `sm_remove`.
pub proof fn lemma_remove_absent<V>(s: Seq<(Seq<char>, V)>, k: Seq<char>)
    requires
        forall|j: int| 0 <= j < s.len() ==> (#[trigger] s[j]).0 != k,
    ensures
        sm_remove(s, k) =~= s,
    decreases s.len(),
{
    if s.len() > 0 {
        lemma_remove_absent(s.skip(1), k);
        assert(seq![s[0]] + s.skip(1) =~= s);
    }
}

/// Unbinding an absent key leaves the view unchanged.
pub proof fn lemma_remove_noop<V>(s: Seq<(Seq<char>, V)>, k: Seq<char>)
    requires
        spec_get(s, k) is None,
    ensures
        sm_remove(s, k) =~= s,
    decreases s.len(),
{
    if s.len() > 0 {
        lemma_remove_noop(s.skip(1), k);
        assert(seq![s[0]] + s.skip(1) =~= s);
    }
}

/// An association map from names to copyable values. Lookups take the first
/// match; the view keeps insertion order, which downstream reporting relies
/// on.
pub struct SMap<V> {
    pub entries: Vec<(String, V)>,
}

impl<V> View for SMap<V> {
    type V = Seq<(Seq<char>, V)>;

    open spec fn view(&self) -> Seq<(Seq<char>, V)> {
        self.entries@.map_values(|p: (String, V)| (p.0@, p.1))
    }
}

impl<V: Copy> SMap<V> {
    /// The empty map.
    pub fn new() -> (r: Self)
        ensures
            r@.len() == 0,
    {
        let r = SMap { entries: Vec::new() };
        proof {
            assert(r@ =~= Seq::<(Seq<char>, V)>::empty());
        }
        r
    }

    /// Number of entries.
    pub fn len(&self) -> (r: usize)
        ensures
            r == self@.len(),
    {
        self.entries.len()
    }

    /// First-match lookup.
    pub fn get(&self, k: &str) -> (r: Option<V>)
        ensures
            r == spec_get(self@, k@),
    {
        let n = self.entries.len();
        let mut i: usize = 0;
        while i < n
            invariant
                i <= n,
                n == self@.len(),
                n == self.entries@.len(),
                forall|j: int| 0 <= j < i ==> (#[trigger] self@[j]).0 != k@,
            decreases n - i,
        {
            if str_eq(self.entries[i].0.as_str(), k) {
                proof {
                    lemma_get_present(self@, k@, i as int);
                }
                return Some(self.entries[i].1);
            }
            i = i + 1;
        }
        proof {
            lemma_get_absent(self@, k@);
        }
        None
    }

    /// Whether the key is bound.
    pub fn contains(&self, k: &str) -> (r: bool)
        ensures
            r == (spec_get(self@, k@) is Some),
    {
        self.get(k).is_some()
    }

    /// Binds `k` to `v`, per `sm_insert`.
    pub fn insert(&mut self, k: String, v: V)
        ensures
            final(self)@ == sm_insert(old(self)@, k@, v),
    {
        let n = self.entries.len();
        let mut i: usize = 0;
        while i < n
            invariant
                i <= n,
                n == self@.len(),
                n == self.entries@.len(),
                self@ == old(self)@,
                self.entries@ == old(self).entries@,
                forall|j: int| 0 <= j < i ==> (#[trigger] self@[j]).0 != k@,
            decreases n - i,
        {
            if str_eq(self.entries[i].0.as_str(), k.as_str()) {
                proof {
                    lemma_insert_update(self@, k@, v, i as int);
                }
                self.entries[i] = (k, v);
                proof {
                    assert(self@ =~= old(self)@.update(i as int, (k@, v)));
                }
                return ;
            }
            i = i + 1;
        }
        proof {
            lemma_insert_push(self@, k@, v);
        }
        self.entries.push((k, v));
        proof {
            assert(self@ =~= old(self)@.push((k@, v)));
        }
    }

    /// Unbinds `k`, returning its value, per `sm_remove`.
    pub fn remove_key(&mut self, k: &str) -> (r: Option<V>)
        ensures
            r == spec_get(old(self)@, k@),
            final(self)@ == sm_remove(old(self)@, k@),
    {
        let n = self.entries.len();
        let mut i: usize = 0;
        while i < n
            invariant
                i <= n,
                n == self@.len(),
                n == self.entries@.len(),
                self@ == old(self)@,
                self.entries@ == old(self).entries@,
                forall|j: int| 0 <= j < i ==> (#[trigger] self@[j]).0 != k@,
            decreases n - i,
        {
            if str_eq(self.entries[i].0.as_str(), k) {
                proof {
                    lemma_get_present(self@, k@, i as int);
                    lemma_remove_at(self@, k@, i as int);
                }
                let p = self.entries.remove(i);
                proof {
                    assert(self@ =~= old(self)@.remove(i as int));
                }
                return Some(p.1);
            }
            i = i + 1;
        }
        proof {
            lemma_get_absent(self@, k@);
            lemma_remove_absent(self@, k@);
        }
        None
    }

    /// A map with the same view.
    pub fn duplicate(&self) -> (r: Self)
        ensures
            r@ == self@,
    {
        let n = self.entries.len();
        let mut out: Vec<(String, V)> = Vec::new();
        let mut i: usize = 0;
        while i < n
            invariant
                i <= n,
                n == self.entries@.len(),
                out@.len() == i,
                forall|j: int| 0 <= j < i ==> out@[j] == self.entries@[j],
            decreases n - i,
        {
            let name = self.entries[i].0.clone();
            let value = self.entries[i].1;
            out.push((name, value));
            i = i + 1;
        }
        proof {
            assert(out@ =~= self.entries@);
        }
        let r = SMap { entries: out };
        proof {
            assert(r@ =~= self@);
        }
        r
    }
}

} // verus!
