//! Vectors used as maps keyed by key combo, and vectors kept sorted by a
//! text key.
use vstd::prelude::*;

use crate::binding::{ComboView, KeyCombo};
use crate::text::{chars_lt, chars_of, lemma_seq_le_trans, lemma_seq_lt_total, seq_le, seq_lt};

verus! {

/// Items that carry a key combo.
pub trait Keyed: View + Sized {
    spec fn key_view(v: Self::V) -> ComboView;

    fn combo(&self) -> (r: &KeyCombo)
        ensures
            r@ == Self::key_view(self@),
    ;
}

/// The map a sequence of keyed items denotes: each key bound to the value
/// of its last occurrence.
pub open spec fn keyed_map<T: Keyed>(s: Seq<T>) -> Map<ComboView, T::V>
    decreases s.len(),
{
    if s.len() == 0 {
        Map::empty()
    } else {
        keyed_map(s.drop_last()).insert(T::key_view(s.last()@), s.last()@)
    }
}

/// No key occurs twice.
pub open spec fn distinct_keys<T: Keyed>(s: Seq<T>) -> bool {
    forall|i: int, j: int|
        0 <= i < s.len() && 0 <= j < s.len() && i != j ==> T::key_view(s[i]@) != T::key_view(
            s[j]@,
        )
}

pub proof fn lemma_keyed_dom<T: Keyed>(s: Seq<T>, c: ComboView)
    ensures
        keyed_map(s).contains_key(c) <==> exists|i: int|
            0 <= i < s.len() && T::key_view(#[trigger] s[i]@) == c,
    decreases s.len(),
{
    if s.len() > 0 {
        lemma_keyed_dom(s.drop_last(), c);
        if keyed_map(s.drop_last()).contains_key(c) {
            let i = choose|i: int|
                0 <= i < s.drop_last().len() && T::key_view(#[trigger] s.drop_last()[i]@) == c;
            assert(s[i] == s.drop_last()[i]);
        }
        if exists|i: int| 0 <= i < s.len() && T::key_view(#[trigger] s[i]@) == c {
            let i = choose|i: int| 0 <= i < s.len() && T::key_view(#[trigger] s[i]@) == c;
            if i < s.len() - 1 {
                assert(s.drop_last()[i] == s[i]);
            }
        }
    }
}

/// Each key of the map is bound to an item with that key.
pub proof fn lemma_keyed_key<T: Keyed>(s: Seq<T>, c: ComboView)
    requires
        keyed_map(s).contains_key(c),
    ensures
        T::key_view(keyed_map(s)[c]) == c,
    decreases s.len(),
{
    if s.len() > 0 && T::key_view(s.last()@) != c {
        lemma_keyed_key(s.drop_last(), c);
    }
}

pub proof fn lemma_keyed_val<T: Keyed>(s: Seq<T>, i: int)
    requires
        distinct_keys(s),
        0 <= i < s.len(),
    ensures
        keyed_map(s).contains_key(T::key_view(s[i]@)),
        keyed_map(s)[T::key_view(s[i]@)] == s[i]@,
    decreases s.len(),
{
    if i < s.len() - 1 {
        let t = s.drop_last();
        assert(t[i] == s[i]);
        assert forall|a: int, b: int|
            0 <= a < t.len() && 0 <= b < t.len() && a != b implies T::key_view(t[a]@)
            != T::key_view(t[b]@) by {
            assert(t[a] == s[a]);
            assert(t[b] == s[b]);
        }
        lemma_keyed_val(t, i);
        assert(T::key_view(s[i]@) != T::key_view(s.last()@));
    }
}

/// Two sequences with distinct keys denote the same map when each key's
/// value agrees.
pub proof fn lemma_keyed_ext<T: Keyed>(s: Seq<T>, m: Map<ComboView, T::V>)
    requires
        distinct_keys(s),
        forall|c: ComboView|
            m.contains_key(c) <==> exists|i: int| 0 <= i < s.len() && T::key_view(#[trigger] s[i]@) == c,
        forall|i: int| 0 <= i < s.len() ==> m[T::key_view(#[trigger] s[i]@)] == s[i]@,
    ensures
        keyed_map(s) == m,
{
    assert forall|c: ComboView| keyed_map(s).contains_key(c) == m.contains_key(c) by {
        lemma_keyed_dom(s, c);
    }
    assert forall|c: ComboView| #[trigger] keyed_map(s).contains_key(c) implies keyed_map(s)[c]
        == m[c] by {
        lemma_keyed_dom(s, c);
        let i = choose|i: int| 0 <= i < s.len() && T::key_view(#[trigger] s[i]@) == c;
        lemma_keyed_val(s, i);
    }
    assert(keyed_map(s) =~= m);
}

/// Position of the item keyed by `c`, if any.
pub fn find_key<T: Keyed>(v: &Vec<T>, c: &KeyCombo) -> (r: Option<usize>)
    ensures
        match r {
            Some(i) => i < v@.len() && T::key_view(v@[i as int]@) == c@,
            None => forall|i: int| 0 <= i < v@.len() ==> T::key_view(#[trigger] v@[i]@) != c@,
        },
{
    let mut i: usize = 0;
    while i < v.len()
        invariant
            i <= v@.len(),
            forall|j: int| 0 <= j < i ==> T::key_view(#[trigger] v@[j]@) != c@,
        decreases v@.len() - i,
    {
        if v[i].combo().same(c) {
            return Some(i);
        }
        i = i + 1;
    }
    None
}

/// Looks `c` up in a keyed vector with distinct keys.
pub fn lookup<'a, T: Keyed>(v: &'a Vec<T>, c: &KeyCombo) -> (r: Option<&'a T>)
    requires
        distinct_keys(v@),
    ensures
        match r {
            Some(x) => keyed_map(v@).contains_key(c@) && x@ == keyed_map(v@)[c@]
                && T::key_view(x@) == c@,
            None => !keyed_map(v@).contains_key(c@),
        },
{
    match find_key(v, c) {
        Some(i) => {
            proof {
                lemma_keyed_val(v@, i as int);
            }
            Some(&v[i])
        },
        None => {
            proof {
                lemma_keyed_dom(v@, c@);
            }
            None
        },
    }
}

/// Binds the key of `x` to `x`, replacing an item with the same key.
pub fn upsert<T: Keyed>(v: &mut Vec<T>, x: T)
    requires
        distinct_keys(old(v)@),
    ensures
        distinct_keys(final(v)@),
        keyed_map(final(v)@) == keyed_map(old(v)@).insert(T::key_view(x@), x@),
{
    let ghost k = T::key_view(x@);
    let ghost xv = x@;
    let ghost m = keyed_map(v@).insert(k, xv);
    let ghost s0 = v@;
    match find_key(v, x.combo()) {
        Some(i) => {
            v.set(i, x);
            proof {
                let s = v@;
                assert(s == s0.update(i as int, s[i as int]));
                assert forall|a: int, b: int|
                    0 <= a < s.len() && 0 <= b < s.len() && a != b implies T::key_view(s[a]@)
                    != T::key_view(s[b]@) by {
                    if a != i && b != i {
                        assert(s[a] == s0[a] && s[b] == s0[b]);
                    } else if a == i {
                        assert(s[b] == s0[b]);
                    } else {
                        assert(s[a] == s0[a]);
                    }
                }
                assert forall|c: ComboView|
                    m.contains_key(c) <==> exists|j: int|
                        0 <= j < s.len() && T::key_view(#[trigger] s[j]@) == c by {
                    lemma_keyed_dom(s0, c);
                    if m.contains_key(c) && c != k {
                        let j = choose|j: int| 0 <= j < s0.len() && T::key_view(#[trigger] s0[j]@) == c;
                        assert(s[j] == s0[j]);
                    }
                    if exists|j: int| 0 <= j < s.len() && T::key_view(#[trigger] s[j]@) == c {
                        let j = choose|j: int| 0 <= j < s.len() && T::key_view(#[trigger] s[j]@) == c;
                        if j != i {
                            assert(s[j] == s0[j]);
                        }
                    }
                }
                assert forall|j: int| 0 <= j < s.len() implies m[T::key_view(#[trigger] s[j]@)]
                    == s[j]@ by {
                    if j != i {
                        assert(s[j] == s0[j]);
                        lemma_keyed_val(s0, j);
                    }
                }
                lemma_keyed_ext(s, m);
            }
        },
        None => {
            v.push(x);
            proof {
                let s = v@;
                assert(s.drop_last() =~= s0);
                assert forall|a: int, b: int|
                    0 <= a < s.len() && 0 <= b < s.len() && a != b implies T::key_view(s[a]@)
                    != T::key_view(s[b]@) by {
                    if a < s0.len() {
                        assert(s[a] == s0[a]);
                    }
                    if b < s0.len() {
                        assert(s[b] == s0[b]);
                    }
                }
            }
        },
    }
}

/// Removes the item keyed by `c`, if any.
pub fn remove_key<T: Keyed>(v: &mut Vec<T>, c: &KeyCombo) -> (r: bool)
    requires
        distinct_keys(old(v)@),
    ensures
        distinct_keys(final(v)@),
        keyed_map(final(v)@) == keyed_map(old(v)@).remove(c@),
        r == keyed_map(old(v)@).contains_key(c@),
{
    let ghost s0 = v@;
    let ghost m = keyed_map(v@).remove(c@);
    match find_key(v, c) {
        Some(i) => {
            proof {
                lemma_keyed_dom(s0, c@);
            }
            v.remove(i);
            proof {
                let s = v@;
                assert(s =~= s0.remove(i as int));
                assert forall|a: int, b: int|
                    0 <= a < s.len() && 0 <= b < s.len() && a != b implies T::key_view(s[a]@)
                    != T::key_view(s[b]@) by {
                    let a0 = if a < i { a } else { a + 1 };
                    let b0 = if b < i { b } else { b + 1 };
                    assert(s[a] == s0[a0]);
                    assert(s[b] == s0[b0]);
                }
                assert forall|d: ComboView|
                    m.contains_key(d) <==> exists|j: int|
                        0 <= j < s.len() && T::key_view(#[trigger] s[j]@) == d by {
                    lemma_keyed_dom(s0, d);
                    if m.contains_key(d) {
                        let j = choose|j: int| 0 <= j < s0.len() && T::key_view(#[trigger] s0[j]@) == d;
                        assert(j != i);
                        let j1 = if j < i { j } else { j - 1 };
                        assert(s[j1] == s0[j]);
                    }
                    if exists|j: int| 0 <= j < s.len() && T::key_view(#[trigger] s[j]@) == d {
                        let j = choose|j: int| 0 <= j < s.len() && T::key_view(#[trigger] s[j]@) == d;
                        let j0 = if j < i { j } else { j + 1 };
                        assert(s[j] == s0[j0]);
                        assert(j0 != i);
                    }
                }
                assert forall|j: int| 0 <= j < s.len() implies m[T::key_view(#[trigger] s[j]@)]
                    == s[j]@ by {
                    let j0 = if j < i { j } else { j + 1 };
                    assert(s[j] == s0[j0]);
                    lemma_keyed_val(s0, j0);
                }
                lemma_keyed_ext(s, m);
            }
            true
        },
        None => {
            proof {
                lemma_keyed_dom(s0, c@);
                assert(keyed_map(s0).remove(c@) =~= keyed_map(s0));
            }
            false
        },
    }
}

// ---------------------------------------------------------------------------
// Vectors sorted by a text key
// ---------------------------------------------------------------------------

/// Items ordered by a text key.
pub trait SortKey: View + Sized {
    spec fn sort_key(v: Self::V) -> Seq<char>;

    fn key_text(&self) -> (r: Vec<char>)
        ensures
            r@ == Self::sort_key(self@),
    ;
}

/// The items are in non-decreasing key order.
pub open spec fn sorted_by_key<T: SortKey>(s: Seq<T>) -> bool {
    forall|i: int, j: int|
        0 <= i < j < s.len() ==> seq_le(T::sort_key(#[trigger] s[i]@), T::sort_key(#[trigger] s[j]@))
}

/// Inserts `x` after every item whose key is not greater than its own.
pub fn insert_sorted<T: SortKey>(v: &mut Vec<T>, x: T) -> (p: usize)
    requires
        sorted_by_key(old(v)@),
    ensures
        sorted_by_key(final(v)@),
        p <= old(v)@.len(),
        final(v)@ == old(v)@.insert(p as int, x),
{
    let kx = x.key_text();
    let mut p: usize = 0;
    loop
        invariant
            p <= v@.len(),
            kx@ == T::sort_key(x@),
            forall|j: int| 0 <= j < p ==> seq_le(T::sort_key(#[trigger] v@[j]@), kx@),
        ensures
            p <= v@.len(),
            forall|j: int| 0 <= j < p ==> seq_le(T::sort_key(#[trigger] v@[j]@), kx@),
            p < v@.len() ==> seq_lt(kx@, T::sort_key(v@[p as int]@)),
        decreases v@.len() - p,
    {
        if p >= v.len() {
            break;
        }
        let kp = v[p].key_text();
        if chars_lt(&kx, &kp) {
            break;
        }
        proof {
            lemma_seq_lt_total(kx@, kp@);
        }
        p = p + 1;
    }
    let ghost s0 = v@;
    v.insert(p, x);
    proof {
        let s = v@;
        assert(s == s0.insert(p as int, x));
        assert forall|i: int, j: int| 0 <= i < j < s.len() implies seq_le(
            T::sort_key(#[trigger] s[i]@),
            T::sort_key(#[trigger] s[j]@),
        ) by {
            if j < p {
                assert(s[i] == s0[i] && s[j] == s0[j]);
            } else if j == p {
                assert(s[i] == s0[i]);
            } else if i == p {
                assert(s[j] == s0[j - 1]);
                let kp = T::sort_key(s0[p as int]@);
                crate::text::lemma_seq_lt_asym(kx@, kp);
                crate::text::lemma_seq_lt_irreflexive(kp);
                if j - 1 > p {
                    assert(seq_le(kp, T::sort_key(s0[j - 1]@)));
                }
                lemma_seq_le_trans(kx@, kp, T::sort_key(s0[j - 1]@));
            } else if i < p {
                assert(s[i] == s0[i] && s[j] == s0[j - 1]);
                let kp = T::sort_key(s0[p as int]@);
                crate::text::lemma_seq_lt_asym(kx@, kp);
                lemma_seq_le_trans(T::sort_key(s0[i]@), kx@, kp);
                if j - 1 > p {
                    lemma_seq_le_trans(T::sort_key(s0[i]@), kp, T::sort_key(s0[j - 1]@));
                }
            } else {
                assert(s[i] == s0[i - 1] && s[j] == s0[j - 1]);
            }
        }
    }
    p
}


/// Index facts about `Seq::insert`.
pub proof fn lemma_insert_at<A>(s: Seq<A>, p: int, x: A)
    requires
        0 <= p <= s.len(),
    ensures
        s.insert(p, x).len() == s.len() + 1,
        s.insert(p, x)[p] == x,
        forall|m: int| 0 <= m < p ==> #[trigger] s.insert(p, x)[m] == s[m],
        forall|m: int| p < m <= s.len() ==> #[trigger] s.insert(p, x)[m] == s[m - 1],
{
}

/// Inserts `x`, whose key is not yet present, at its sorted position.
pub fn insert_sorted_keyed<T: Keyed + SortKey>(v: &mut Vec<T>, x: T) -> (p: usize)
    requires
        distinct_keys(old(v)@),
        sorted_by_key(old(v)@),
        !keyed_map(old(v)@).contains_key(<T as Keyed>::key_view(x@)),
    ensures
        distinct_keys(final(v)@),
        sorted_by_key(final(v)@),
        keyed_map(final(v)@) == keyed_map(old(v)@).insert(<T as Keyed>::key_view(x@), x@),
        p <= old(v)@.len(),
        final(v)@ == old(v)@.insert(p as int, x),
{
    let ghost s0 = v@;
    let ghost k = <T as Keyed>::key_view(x@);
    let ghost xv = x@;
    let ghost m = keyed_map(s0).insert(k, xv);
    proof {
        lemma_keyed_dom(s0, k);
    }
    let p = insert_sorted(v, x);
    proof {
        let s = v@;
        lemma_insert_at(s0, p as int, s[p as int]);
        assert forall|a: int, b: int|
            0 <= a < s.len() && 0 <= b < s.len() && a != b implies <T as Keyed>::key_view(s[a]@)
            != <T as Keyed>::key_view(s[b]@) by {
            let a0 = if a < p { a } else { a - 1 };
            let b0 = if b < p { b } else { b - 1 };
            if a != p {
                assert(s[a] == s0[a0]);
            }
            if b != p {
                assert(s[b] == s0[b0]);
            }
        }
        assert forall|c: ComboView|
            m.contains_key(c) <==> exists|j: int| 0 <= j < s.len() && <T as Keyed>::key_view(#[trigger] s[j]@) == c by {
            lemma_keyed_dom(s0, c);
            if m.contains_key(c) {
                if c == k {
                    assert(<T as Keyed>::key_view(s[p as int]@) == c);
                } else {
                    let j = choose|j: int| 0 <= j < s0.len() && <T as Keyed>::key_view(#[trigger] s0[j]@) == c;
                    let j1 = if j < p { j } else { j + 1 };
                    assert(s[j1] == s0[j]);
                }
            }
            if exists|j: int| 0 <= j < s.len() && <T as Keyed>::key_view(#[trigger] s[j]@) == c {
                let j = choose|j: int| 0 <= j < s.len() && <T as Keyed>::key_view(#[trigger] s[j]@) == c;
                if j != p {
                    let j0 = if j < p { j } else { j - 1 };
                    assert(s[j] == s0[j0]);
                }
            }
        }
        assert forall|j: int| 0 <= j < s.len() implies m[<T as Keyed>::key_view(#[trigger] s[j]@)] == s[j]@ by {
            if j != p {
                let j0 = if j < p { j } else { j - 1 };
                assert(s[j] == s0[j0]);
                lemma_keyed_val(s0, j0);
            }
        }
        lemma_keyed_ext(s, m);
    }
    p
}

/// The number of keys of a sequence with distinct keys is its length.
pub proof fn lemma_keyed_len<T: Keyed>(s: Seq<T>)
    requires
        distinct_keys(s),
    ensures
        keyed_map(s).dom().len() == s.len(),
        keyed_map(s).dom().finite(),
    decreases s.len(),
{
    if s.len() > 0 {
        let t = s.drop_last();
        assert forall|a: int, b: int|
            0 <= a < t.len() && 0 <= b < t.len() && a != b implies T::key_view(t[a]@)
            != T::key_view(t[b]@) by {
            assert(t[a] == s[a] && t[b] == s[b]);
        }
        lemma_keyed_len(t);
        let k = T::key_view(s.last()@);
        lemma_keyed_dom(t, k);
        if keyed_map(t).contains_key(k) {
            let j = choose|j: int| 0 <= j < t.len() && T::key_view(#[trigger] t[j]@) == k;
            assert(t[j] == s[j]);
        }
        assert(keyed_map(s).dom() =~= keyed_map(t).dom().insert(k));
    }
}

/// A map keyed by key combo, kept as a vector without repeated keys.
#[derive(Debug, Clone)]
pub struct ComboMap<T> {
    items: Vec<T>,
}

impl<T: Keyed> View for ComboMap<T> {
    type V = Map<ComboView, T::V>;

    closed spec fn view(&self) -> Map<ComboView, T::V> {
        keyed_map(self.items@)
    }
}

impl<T: Keyed> ComboMap<T> {
    /// The items, in storage order.
    pub closed spec fn entries(&self) -> Seq<T> {
        self.items@
    }

    pub closed spec fn wf(&self) -> bool {
        distinct_keys(self.items@)
    }

    /// The map's view is the map its entries denote, one entry per key.
    pub proof fn lemma_entries(&self)
        requires
            self.wf(),
        ensures
            distinct_keys(self.entries()),
            self@ == keyed_map(self.entries()),
            self@.dom().finite(),
            self@.dom().len() == self.entries().len(),
    {
        lemma_keyed_len(self.items@);
    }

    pub fn new() -> (r: ComboMap<T>)
        ensures
            r.wf(),
            r@ == Map::<ComboView, T::V>::empty(),
            r.entries().len() == 0,
    {
        ComboMap { items: Vec::new() }
    }

    /// Number of keys.
    pub fn len(&self) -> (r: usize)
        requires
            self.wf(),
        ensures
            r == self@.dom().len(),
    {
        proof {
            lemma_keyed_len(self.items@);
        }
        self.items.len()
    }

    pub fn is_empty(&self) -> (r: bool)
        requires
            self.wf(),
        ensures
            r == (self@.dom().len() == 0),
    {
        proof {
            lemma_keyed_len(self.items@);
        }
        self.items.len() == 0
    }

    /// The value bound to `c`, if any.
    pub fn get(&self, c: &KeyCombo) -> (r: Option<&T>)
        requires
            self.wf(),
        ensures
            match r {
                Some(x) => self@.contains_key(c@) && x@ == self@[c@] && T::key_view(x@) == c@,
                None => !self@.contains_key(c@),
            },
    {
        lookup(&self.items, c)
    }

    pub fn contains_key(&self, c: &KeyCombo) -> (r: bool)
        requires
            self.wf(),
        ensures
            r == self@.contains_key(c@),
    {
        lookup(&self.items, c).is_some()
    }

    /// Binds the key of `x` to `x`.
    pub fn insert(&mut self, x: T)
        requires
            old(self).wf(),
        ensures
            final(self).wf(),
            final(self)@ == old(self)@.insert(T::key_view(x@), x@),
    {
        upsert(&mut self.items, x);
    }

    /// Unbinds `c`; tells whether it was bound.
    pub fn remove(&mut self, c: &KeyCombo) -> (r: bool)
        requires
            old(self).wf(),
        ensures
            final(self).wf(),
            final(self)@ == old(self)@.remove(c@),
            r == old(self)@.contains_key(c@),
    {
        remove_key(&mut self.items, c)
    }

    pub fn clear(&mut self)
        ensures
            final(self).wf(),
            final(self)@ == Map::<ComboView, T::V>::empty(),
            final(self).entries().len() == 0,
    {
        self.items = Vec::new();
    }

    /// The entries, one per key.
    pub fn items(&self) -> (r: &Vec<T>)
        ensures
            r@ == self.entries(),
    {
        &self.items
    }
}

} // verus!
