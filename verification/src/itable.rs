//! Index-keyed association tables with a deterministic order.
//!
//! The opcode table and the raw-bits side table are keyed by numeric opcode
//! slots. Entries keep insertion order; lookups take the first match; an
//! insert overwrites the first matching entry in place and appends an
//! absent key.

use vstd::prelude::*;

verus! {

/// First-match lookup over an index-keyed view.
pub open spec fn tget<V>(s: Seq<(u16, V)>, k: u16) -> Option<V>
    decreases s.len(),
{
    if s.len() == 0 {
        None
    } else if s[0].0 == k {
        Some(s[0].1)
    } else {
        tget(s.skip(1), k)
    }
}

/// Binding `k` to `v`: the first matching entry is overwritten in place,
/// and an absent key is appended.
pub open spec fn t_insert<V>(s: Seq<(u16, V)>, k: u16, v: V) -> Seq<(u16, V)>
    decreases s.len(),
{
    if s.len() == 0 {
        seq![(k, v)]
    } else if s[0].0 == k {
        seq![(k, v)] + s.skip(1)
    } else {
        seq![s[0]] + t_insert(s.skip(1), k, v)
    }
}

/// Lookup finds the first entry whose key matches.
pub proof fn lemma_tget_present<V>(s: Seq<(u16, V)>, k: u16, i: int)
    requires
        0 <= i < s.len(),
        s[i].0 == k,
        forall|j: int| 0 <= j < i ==> (#[trigger] s[j]).0 != k,
    ensures
        tget(s, k) == Some(s[i].1),
    decreases i,
{
    if i > 0 {
        lemma_tget_present(s.skip(1), k, i - 1);
    }
}

/// Lookup misses when no entry's key matches.
pub proof fn lemma_tget_absent<V>(s: Seq<(u16, V)>, k: u16)
    requires
        forall|j: int| 0 <= j < s.len() ==> (#[trigger] s[j]).0 != k,
    ensures
        tget(s, k) == None::<V>,
    decreases s.len(),
{
    if s.len() > 0 {
        lemma_tget_absent(s.skip(1), k);
    }
}

/// Overwriting the first match in place realizes `t_insert`.
pub proof fn lemma_t_insert_update<V>(s: Seq<(u16, V)>, k: u16, v: V, i: int)
    requires
        0 <= i < s.len(),
        s[i].0 == k,
        forall|j: int| 0 <= j < i ==> (#[trigger] s[j]).0 != k,
    ensures
        t_insert(s, k, v) =~= s.update(i, (k, v)),
    decreases i,
{
    if i == 0 {
        assert(seq![(k, v)] + s.skip(1) =~= s.update(0, (k, v)));
    } else {
        lemma_t_insert_update(s.skip(1), k, v, i - 1);
        assert(seq![s[0]] + s.skip(1).update(i - 1, (k, v)) =~= s.update(i, (k, v)));
    }
}

/// Appending an absent key realizes `t_insert`.
pub proof fn lemma_t_insert_push<V>(s: Seq<(u16, V)>, k: u16, v: V)
    requires
        forall|j: int| 0 <= j < s.len() ==> (#[trigger] s[j]).0 != k,
    ensures
        t_insert(s, k, v) =~= s.push((k, v)),
    decreases s.len(),
{
    if s.len() == 0 {
        assert(seq![(k, v)] =~= s.push((k, v)));
    } else {
        lemma_t_insert_push(s.skip(1), k, v);
        assert(seq![s[0]] + s.skip(1).push((k, v)) =~= s.push((k, v)));
    }
}

/// Binding a key binds it and no other.
pub proof fn lemma_t_insert_get<V>(s: Seq<(u16, V)>, k: u16, v: V, k2: u16)
    ensures
        k2 == k ==> tget(t_insert(s, k, v), k2) == Some(v),
        k2 != k ==> tget(t_insert(s, k, v), k2) == tget(s, k2),
    decreases s.len(),
{
    let s2 = t_insert(s, k, v);
    if s.len() == 0 {
        assert(s2 == seq![(k, v)]);
        assert(s2[0] == (k, v));
        assert(s2.skip(1) =~= Seq::<(u16, V)>::empty());
        assert(tget(Seq::<(u16, V)>::empty(), k2) == None::<V>);
    } else if s[0].0 == k {
        assert(s2 == seq![(k, v)] + s.skip(1));
        assert(s2[0] == (k, v));
        assert(s2.skip(1) =~= s.skip(1));
    } else {
        lemma_t_insert_get(s.skip(1), k, v, k2);
        assert(s2 == seq![s[0]] + t_insert(s.skip(1), k, v));
        assert(s2[0] == s[0]);
        assert(s2.skip(1) =~= t_insert(s.skip(1), k, v));
    }
}

/// First-match lookup.
pub fn tab_get<'a, V>(tab: &'a Vec<(u16, V)>, k: u16) -> (r: Option<&'a V>)
    ensures
        match r {
            Some(v) => tget(tab@, k) == Some(*v),
            None => tget(tab@, k) is None,
        },
{
    let n = tab.len();
    let mut i: usize = 0;
    while i < n
        invariant
            i <= n,
            n == tab@.len(),
            forall|j: int| 0 <= j < i ==> (#[trigger] tab@[j]).0 != k,
        decreases n - i,
    {
        if tab[i].0 == k {
            proof {
                lemma_tget_present(tab@, k, i as int);
            }
            return Some(&tab[i].1);
        }
        i = i + 1;
    }
    proof {
        lemma_tget_absent(tab@, k);
    }
    None
}

/// Whether the key is bound.
pub fn tab_contains<V>(tab: &Vec<(u16, V)>, k: u16) -> (r: bool)
    ensures
        r == (tget(tab@, k) is Some),
{
    tab_get(tab, k).is_some()
}

/// Binds `k` to `v`, per `t_insert`.
pub fn tab_insert<V>(tab: &mut Vec<(u16, V)>, k: u16, v: V)
    ensures
        final(tab)@ == t_insert(old(tab)@, k, v),
{
    let n = tab.len();
    let mut i: usize = 0;
    while i < n
        invariant
            i <= n,
            n == tab@.len(),
            tab@ == old(tab)@,
            forall|j: int| 0 <= j < i ==> (#[trigger] tab@[j]).0 != k,
        decreases n - i,
    {
        if tab[i].0 == k {
            proof {
                lemma_t_insert_update(tab@, k, v, i as int);
            }
            tab[i] = (k, v);
            return ;
        }
        i = i + 1;
    }
    proof {
        lemma_t_insert_push(tab@, k, v);
    }
    tab.push((k, v));
}

} // verus!
