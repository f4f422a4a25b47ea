//! Vectors of `(name, value)` pairs used as maps keyed by name.
use vstd::prelude::*;

use crate::text::{chars_lt, chars_of, lemma_seq_lt_irreflexive, lemma_seq_lt_total, lemma_seq_lt_trans, owned, seq_lt, str_eq};

verus! {

/// No name occurs twice.
pub open spec fn names_distinct<V>(s: Seq<(String, V)>) -> bool {
    forall|i: int, j: int| 0 <= i < s.len() && 0 <= j < s.len() && i != j ==> s[i].0@ != s[j].0@
}

/// The map a list of named values denotes.
pub open spec fn named_map<V>(s: Seq<(String, V)>) -> Map<Seq<char>, V> {
    Map::new(
        |k: Seq<char>| exists|i: int| 0 <= i < s.len() && #[trigger] s[i].0@ == k,
        |k: Seq<char>| s[choose|i: int| 0 <= i < s.len() && #[trigger] s[i].0@ == k].1,
    )
}

pub proof fn lemma_named_val<V>(s: Seq<(String, V)>, i: int)
    requires
        names_distinct(s),
        0 <= i < s.len(),
    ensures
        named_map(s).contains_key(s[i].0@),
        named_map(s)[s[i].0@] == s[i].1,
{
    let k = s[i].0@;
    assert(exists|j: int| 0 <= j < s.len() && #[trigger] s[j].0@ == k);
    let j = choose|j: int| 0 <= j < s.len() && #[trigger] s[j].0@ == k;
    assert(j == i);
}

/// Extensionality for lists with distinct names.
pub proof fn lemma_named_ext<V>(s: Seq<(String, V)>, m: Map<Seq<char>, V>)
    requires
        names_distinct(s),
        forall|k: Seq<char>| m.contains_key(k) <==> exists|i: int| 0 <= i < s.len() && #[trigger] s[i].0@ == k,
        forall|i: int| 0 <= i < s.len() ==> m[#[trigger] s[i].0@] == s[i].1,
    ensures
        named_map(s) == m,
{
    assert forall|k: Seq<char>| #[trigger] named_map(s).contains_key(k) implies named_map(s)[k] == m[k] by {
        let i = choose|i: int| 0 <= i < s.len() && #[trigger] s[i].0@ == k;
        lemma_named_val(s, i);
    }
    assert(named_map(s) =~= m);
}

pub proof fn lemma_named_len<V>(s: Seq<(String, V)>)
    requires
        names_distinct(s),
    ensures
        named_map(s).dom().finite(),
        named_map(s).dom().len() == s.len(),
    decreases s.len(),
{
    if s.len() == 0 {
        assert(named_map(s).dom() =~= Set::<Seq<char>>::empty());
    } else {
        let t = s.drop_last();
        assert forall|i: int, j: int| 0 <= i < t.len() && 0 <= j < t.len() && i != j implies t[i].0@
            != t[j].0@ by {
            assert(t[i] == s[i] && t[j] == s[j]);
        }
        lemma_named_len(t);
        let k = s.last().0@;
        assert forall|x: Seq<char>| named_map(s).dom().contains(x) == named_map(t).dom().insert(k).contains(x) by {
            if named_map(s).dom().contains(x) && x != k {
                let i = choose|i: int| 0 <= i < s.len() && #[trigger] s[i].0@ == x;
                assert(t[i] == s[i]);
            }
            if named_map(t).dom().contains(x) {
                let i = choose|i: int| 0 <= i < t.len() && #[trigger] t[i].0@ == x;
                assert(t[i] == s[i]);
            }
            if x == k {
                assert(s[s.len() - 1].0@ == k);
            }
        }
        assert(named_map(s).dom() =~= named_map(t).dom().insert(k));
        if named_map(t).dom().contains(k) {
            let i = choose|i: int| 0 <= i < t.len() && #[trigger] t[i].0@ == k;
            assert(t[i] == s[i]);
        }
    }
}

/// Position of `name` in the list, if present.
pub fn find_name<V>(s: &Vec<(String, V)>, name: &str) -> (r: Option<usize>)
    requires
        names_distinct(s@),
    ensures
        match r {
            Some(i) => i < s@.len() && s@[i as int].0@ == name@,
            None => !named_map(s@).contains_key(name@),
        },
{
    let mut i: usize = 0;
    while i < s.len()
        invariant
            i <= s@.len(),
            forall|j: int| 0 <= j < i ==> #[trigger] s@[j].0@ != name@,
        decreases s@.len() - i,
    {
        if str_eq(s[i].0.as_str(), name) {
            return Some(i);
        }
        i = i + 1;
    }
    None
}

/// Counters by name.
#[derive(Debug, Clone, Default)]
pub struct NamedCounts {
    items: Vec<(String, u64)>,
}

impl View for NamedCounts {
    type V = Map<Seq<char>, u64>;

    closed spec fn view(&self) -> Map<Seq<char>, u64> {
        named_map(self.items@)
    }
}

/// The count of `k` (0 when absent).
pub open spec fn count_of(m: Map<Seq<char>, u64>, k: Seq<char>) -> int {
    if m.contains_key(k) {
        m[k] as int
    } else {
        0
    }
}

impl NamedCounts {
    pub closed spec fn wf(&self) -> bool {
        names_distinct(self.items@)
    }

    pub fn new() -> (r: NamedCounts)
        ensures
            r.wf(),
            r@ == Map::<Seq<char>, u64>::empty(),
    {
        let r = NamedCounts { items: Vec::new() };
        assert(r@ =~= Map::<Seq<char>, u64>::empty());
        r
    }

    /// The count of `name` (0 when absent).
    pub fn get(&self, name: &str) -> (r: u64)
        requires
            self.wf(),
        ensures
            r == count_of(self@, name@),
    {
        match find_name(&self.items, name) {
            Some(i) => {
                proof {
                    lemma_named_val(self.items@, i as int);
                }
                self.items[i].1
            },
            None => 0,
        }
    }

    /// Adds `delta` to the count of `name` (creating it at 0).
    pub fn add(&mut self, name: &str, delta: u64)
        requires
            old(self).wf(),
            count_of(old(self)@, name@) + delta <= u64::MAX,
        ensures
            final(self).wf(),
            final(self)@ == old(self)@.insert(name@, (count_of(old(self)@, name@) + delta) as u64),
    {
        let ghost s0 = self.items@;
        let ghost m = named_map(s0).insert(name@, (count_of(named_map(s0), name@) + delta) as u64);
        match find_name(&self.items, name) {
            Some(i) => {
                proof {
                    lemma_named_val(s0, i as int);
                }
                let v = self.items[i].1;
                let key = self.items[i].0.clone();
                self.items.set(i, (key, v + delta));
                proof {
                    let s = self.items@;
                    assert forall|a: int, b: int| 0 <= a < s.len() && 0 <= b < s.len() && a != b implies s[a].0@
                        != s[b].0@ by {
                        if a != i {
                            assert(s[a] == s0[a]);
                        }
                        if b != i {
                            assert(s[b] == s0[b]);
                        }
                    }
                    assert forall|k: Seq<char>| m.contains_key(k) <==> exists|j: int|
                        0 <= j < s.len() && #[trigger] s[j].0@ == k by {
                        if named_map(s0).contains_key(k) {
                            let j = choose|j: int| 0 <= j < s0.len() && #[trigger] s0[j].0@ == k;
                            if j != i {
                                assert(s[j] == s0[j]);
                            }
                        }
                        if exists|j: int| 0 <= j < s.len() && #[trigger] s[j].0@ == k {
                            let j = choose|j: int| 0 <= j < s.len() && #[trigger] s[j].0@ == k;
                            if j != i {
                                assert(s[j] == s0[j]);
                            }
                        }
                        if k == name@ {
                            assert(s[i as int].0@ == k);
                        }
                    }
                    assert forall|j: int| 0 <= j < s.len() implies m[#[trigger] s[j].0@] == s[j].1 by {
                        if j != i {
                            assert(s[j] == s0[j]);
                            lemma_named_val(s0, j);
                        }
                    }
                    lemma_named_ext(s, m);
                }
            },
            None => {
                self.items.push((owned(name), delta));
                proof {
                    let s = self.items@;
                    assert forall|a: int, b: int| 0 <= a < s.len() && 0 <= b < s.len() && a != b implies s[a].0@
                        != s[b].0@ by {
                        if a < s0.len() {
                            assert(s[a] == s0[a]);
                        }
                        if b < s0.len() {
                            assert(s[b] == s0[b]);
                        }
                        if a < s0.len() && b == s0.len() {
                            assert(named_map(s0).contains_key(s0[a].0@));
                        }
                        if b < s0.len() && a == s0.len() {
                            assert(named_map(s0).contains_key(s0[b].0@));
                        }
                    }
                    assert forall|k: Seq<char>| m.contains_key(k) <==> exists|j: int|
                        0 <= j < s.len() && #[trigger] s[j].0@ == k by {
                        if named_map(s0).contains_key(k) {
                            let j = choose|j: int| 0 <= j < s0.len() && #[trigger] s0[j].0@ == k;
                            assert(s[j] == s0[j]);
                        }
                        if exists|j: int| 0 <= j < s.len() && #[trigger] s[j].0@ == k {
                            let j = choose|j: int| 0 <= j < s.len() && #[trigger] s[j].0@ == k;
                            if j < s0.len() {
                                assert(s[j] == s0[j]);
                            }
                        }
                        if k == name@ {
                            assert(s[s0.len() as int].0@ == k);
                        }
                    }
                    assert forall|j: int| 0 <= j < s.len() implies m[#[trigger] s[j].0@] == s[j].1 by {
                        if j < s0.len() {
                            assert(s[j] == s0[j]);
                            lemma_named_val(s0, j);
                        }
                    }
                    lemma_named_ext(s, m);
                }
            },
        }
    }

    /// Number of names.
    pub fn len(&self) -> (r: usize)
        requires
            self.wf(),
        ensures
            r == self@.dom().len(),
    {
        proof {
            lemma_named_len(self.items@);
        }
        self.items.len()
    }

    /// The `(name, count)` pairs, one per name.
    pub fn entries(&self) -> (r: &Vec<(String, u64)>)
        requires
            self.wf(),
        ensures
            names_distinct(r@),
            named_map(r@) == self@,
    {
        &self.items
    }

    /// A copy of the `(name, count)` pairs.
    pub fn to_vec(&self) -> (r: Vec<(String, u64)>)
        requires
            self.wf(),
        ensures
            names_distinct(r@),
            named_map(r@) == self@,
    {
        let mut out: Vec<(String, u64)> = Vec::new();
        let mut i: usize = 0;
        while i < self.items.len()
            invariant
                i <= self.items@.len(),
                out@.len() == i,
                forall|j: int| 0 <= j < i ==> #[trigger] out@[j].0@ == self.items@[j].0@ && out@[j].1
                    == self.items@[j].1,
            decreases self.items@.len() - i,
        {
            out.push((self.items[i].0.clone(), self.items[i].1));
            i = i + 1;
        }
        proof {
            let s = self.items@;
            let o = out@;
            assert forall|a: int, b: int| 0 <= a < o.len() && 0 <= b < o.len() && a != b implies o[a].0@
                != o[b].0@ by {
                assert(o[a].0@ == s[a].0@ && o[b].0@ == s[b].0@);
            }
            assert forall|k: Seq<char>| named_map(s).contains_key(k) <==> exists|j: int|
                0 <= j < o.len() && #[trigger] o[j].0@ == k by {
                if named_map(s).contains_key(k) {
                    let j = choose|j: int| 0 <= j < s.len() && #[trigger] s[j].0@ == k;
                    assert(o[j].0@ == k);
                }
                if exists|j: int| 0 <= j < o.len() && #[trigger] o[j].0@ == k {
                    let j = choose|j: int| 0 <= j < o.len() && #[trigger] o[j].0@ == k;
                    assert(s[j].0@ == k);
                }
            }
            assert forall|j: int| 0 <= j < o.len() implies named_map(s)[#[trigger] o[j].0@] == o[j].1 by {
                lemma_named_val(s, j);
            }
            lemma_named_ext(o, named_map(s));
        }
        out
    }
}


/// Names in strictly increasing order (hence distinct).
pub open spec fn names_increasing<V>(s: Seq<(String, V)>) -> bool {
    forall|i: int, j: int| 0 <= i < j < s.len() ==> seq_lt(#[trigger] s[i].0@, #[trigger] s[j].0@)
}

pub proof fn lemma_increasing_distinct<V>(s: Seq<(String, V)>)
    requires
        names_increasing(s),
    ensures
        names_distinct(s),
{
    assert forall|i: int, j: int| 0 <= i < s.len() && 0 <= j < s.len() && i != j implies s[i].0@
        != s[j].0@ by {
        if i < j {
            assert(seq_lt(s[i].0@, s[j].0@));
        } else {
            assert(seq_lt(s[j].0@, s[i].0@));
        }
        lemma_seq_lt_irreflexive(s[i].0@);
    }
}

/// Binds `name` to `val` in a list kept in increasing name order.
pub fn upsert_sorted<V>(v: &mut Vec<(String, V)>, name: String, val: V)
    requires
        names_increasing(old(v)@),
    ensures
        names_increasing(final(v)@),
        names_distinct(final(v)@),
        named_map(final(v)@) == named_map(old(v)@).insert(name@, val),
{
    let ghost s0 = v@;
    let ghost nm = name@;
    let ghost m = named_map(s0).insert(nm, val);
    proof {
        lemma_increasing_distinct(s0);
    }
    let key = chars_of(name.as_str());
    let mut i: usize = 0;
    loop
        invariant
            i <= v@.len(),
            v@ == s0,
            key@ == nm,
            forall|j: int| 0 <= j < i ==> seq_lt(#[trigger] s0[j].0@, nm),
        ensures
            i <= s0.len(),
            forall|j: int| 0 <= j < i ==> seq_lt(#[trigger] s0[j].0@, nm),
            i < s0.len() ==> !seq_lt(s0[i as int].0@, nm),
        decreases v@.len() - i,
    {
        if i >= v.len() {
            break;
        }
        let ki = chars_of(v[i].0.as_str());
        if !chars_lt(&ki, &key) {
            break;
        }
        i = i + 1;
    }
    let same = i < v.len() && str_eq(v[i].0.as_str(), name.as_str());
    if same {
        v.set(i, (name, val));
        proof {
            let s = v@;
            assert forall|a: int, b: int| 0 <= a < b < s.len() implies seq_lt(#[trigger] s[a].0@, #[trigger] s[b].0@) by {
                assert(s[a].0@ == s0[a].0@);
                assert(s[b].0@ == s0[b].0@);
            }
            lemma_increasing_distinct(s);
            assert forall|k: Seq<char>| m.contains_key(k) <==> exists|j: int| 0 <= j < s.len() && #[trigger] s[j].0@ == k by {
                if named_map(s0).contains_key(k) {
                    let j = choose|j: int| 0 <= j < s0.len() && #[trigger] s0[j].0@ == k;
                    assert(s[j].0@ == s0[j].0@);
                }
                if exists|j: int| 0 <= j < s.len() && #[trigger] s[j].0@ == k {
                    let j = choose|j: int| 0 <= j < s.len() && #[trigger] s[j].0@ == k;
                    assert(s[j].0@ == s0[j].0@);
                }
                if k == nm {
                    assert(s[i as int].0@ == k);
                }
            }
            assert forall|j: int| 0 <= j < s.len() implies m[#[trigger] s[j].0@] == s[j].1 by {
                if j != i {
                    assert(s[j] == s0[j]);
                    lemma_named_val(s0, j);
                }
            }
            lemma_named_ext(s, m);
        }
    } else {
        proof {
            if i < s0.len() {
                lemma_seq_lt_total(s0[i as int].0@, nm);
            }
        }
        v.insert(i, (name, val));
        proof {
            let s = v@;
            assert forall|a: int, b: int| 0 <= a < b < s.len() implies seq_lt(#[trigger] s[a].0@, #[trigger] s[b].0@) by {
                if b < i {
                    assert(s[a] == s0[a] && s[b] == s0[b]);
                } else if b == i {
                    assert(s[a] == s0[a]);
                } else if a == i {
                    assert(s[b] == s0[b - 1]);
                    assert(seq_lt(nm, s0[i as int].0@));
                    if b - 1 > i {
                        lemma_seq_lt_trans(nm, s0[i as int].0@, s0[b - 1].0@);
                    }
                } else if a < i {
                    assert(s[a] == s0[a] && s[b] == s0[b - 1]);
                } else {
                    assert(s[a] == s0[a - 1] && s[b] == s0[b - 1]);
                }
            }
            lemma_increasing_distinct(s);
            assert forall|k: Seq<char>| m.contains_key(k) <==> exists|j: int| 0 <= j < s.len() && #[trigger] s[j].0@ == k by {
                if named_map(s0).contains_key(k) {
                    let j = choose|j: int| 0 <= j < s0.len() && #[trigger] s0[j].0@ == k;
                    let j1 = if j < i { j } else { j + 1 };
                    assert(s[j1] == s0[j]);
                }
                if exists|j: int| 0 <= j < s.len() && #[trigger] s[j].0@ == k {
                    let j = choose|j: int| 0 <= j < s.len() && #[trigger] s[j].0@ == k;
                    if j < i {
                        assert(s[j] == s0[j]);
                    } else if j > i {
                        assert(s[j] == s0[j - 1]);
                    }
                }
                if k == nm {
                    assert(s[i as int].0@ == k);
                }
            }
            assert forall|j: int| 0 <= j < s.len() implies m[#[trigger] s[j].0@] == s[j].1 by {
                if j < i {
                    assert(s[j] == s0[j]);
                    lemma_named_val(s0, j);
                    assert(seq_lt(s0[j].0@, nm));
                    lemma_seq_lt_irreflexive(nm);
                    assert(s0[j].0@ != nm);
                } else if j > i {
                    assert(s[j] == s0[j - 1]);
                    lemma_named_val(s0, j - 1);
                    assert(s0[j - 1].0@ != nm);
                }
            }
            lemma_named_ext(s, m);
        }
    }
}

} // verus!
