//! A map from string keys to non-zero decimal numbers, the building block of
//! `Costs`.
//!
//! Every value held is normalized (no trailing zeros) and non-zero: a value
//! that becomes zero is removed, so a missing key reads as zero.

use crate::num::{add_is_exact, canonical, in_bounds, lemma_canonical, lemma_canonical_value, lemma_normalized_unique, is_normalized, spec_difference, spec_product, spec_quotient, spec_sum, Num};
use vstd::prelude::*;

verus! {

/// The map held by a list of key/value pairs (the last pair with a key wins,
/// though in a well-formed map keys do not repeat).
pub open spec fn entries_map(s: Seq<(String, Num)>) -> Map<Seq<char>, Num> {
    Map::new(
        |k: Seq<char>| exists|i: int| 0 <= i < s.len() && #[trigger] s[i].0@ == k,
        |k: Seq<char>| s[choose|i: int| 0 <= i < s.len() && #[trigger] s[i].0@ == k].1,
    )
}

/// No key appears twice.
pub open spec fn keys_unique(s: Seq<(String, Num)>) -> bool {
    forall|i: int, j: int| 0 <= i < s.len() && 0 <= j < s.len() && i != j ==> #[trigger] s[i].0@
        != #[trigger] s[j].0@
}

/// A value a map can hold: within bounds, normalized, non-zero.
pub open spec fn storable(n: Num) -> bool {
    &&& in_bounds(n)
    &&& is_normalized(n)
    &&& n.value() != 0
}

/// The value at `k`, or zero.
pub open spec fn lookup(m: Map<Seq<char>, Num>, k: Seq<char>) -> Num {
    if m.contains_key(k) {
        m[k]
    } else {
        Num::spec_zero()
    }
}

/// Every value of a map is storable.
pub open spec fn all_storable(m: Map<Seq<char>, Num>) -> bool {
    forall|k: Seq<char>| #[trigger] m.contains_key(k) ==> storable(m[k])
}

/// `m` with `k` set to `v`, or without `k` when `v` is zero.
pub open spec fn set_value(m: Map<Seq<char>, Num>, k: Seq<char>, v: Num) -> Map<Seq<char>, Num> {
    if v.value() == 0 {
        m.remove(k)
    } else {
        m.insert(k, v)
    }
}

/// `lookup(a, k) + b[k]` (or `-` with `negate`).
pub open spec fn combined_value(
    a: Map<Seq<char>, Num>,
    b: Map<Seq<char>, Num>,
    k: Seq<char>,
    negate: bool,
) -> Option<Num> {
    if negate {
        spec_difference(lookup(a, k), b[k])
    } else {
        spec_sum(lookup(a, k), b[k])
    }
}

/// `lookup(a, k) + b[k]` (or `-` with `negate`), as integers.
pub open spec fn exact_combination(a: Map<Seq<char>, Num>, b: Map<Seq<char>, Num>, k: Seq<char>, negate: bool) -> int {
    if negate {
        lookup(a, k).value() - b[k].value()
    } else {
        lookup(a, k).value() + b[k].value()
    }
}

/// Where combining a value of `b` into `a` is within `rust_decimal`'s exact
/// range (`add_is_exact`), the result is the exact sum (or difference).
pub open spec fn merge_exact(a: Map<Seq<char>, Num>, b: Map<Seq<char>, Num>, negate: bool) -> bool {
    forall|k: Seq<char>|
        #![trigger combined_value(a, b, k, negate)]
        b.contains_key(k) && add_is_exact(lookup(a, k), b[k], negate) ==> (combined_value(
            a,
            b,
            k,
            negate,
        ) matches Some(n) && in_bounds(n) && n.value() == exact_combination(a, b, k, negate))
}

/// Whether every value of `b` combines exactly into `a` (adding, or with
/// `negate` subtracting): the exact result fits `rust_decimal`'s mantissa.
pub open spec fn all_exact(a: Map<Seq<char>, Num>, b: Map<Seq<char>, Num>, negate: bool) -> bool {
    forall|k: Seq<char>| #[trigger] b.contains_key(k) ==> add_is_exact(lookup(a, k), b[k], negate)
}

/// Whether each value of `s` is the exact sum (or, with `negate`, difference)
/// of the values of `a` and `b` at the same key.
pub open spec fn sums_exactly(
    a: Map<Seq<char>, Num>,
    b: Map<Seq<char>, Num>,
    s: Map<Seq<char>, Num>,
    negate: bool,
) -> bool {
    forall|k: Seq<char>|
        #[trigger] lookup(s, k).value() == (if negate {
            lookup(a, k).value() - lookup(b, k).value()
        } else {
            lookup(a, k).value() + lookup(b, k).value()
        })
}

/// Where every value combines exactly, each value of the merged map is the
/// exact sum (or difference) of the two.
pub proof fn lemma_merged_exact(a: Map<Seq<char>, Num>, b: Map<Seq<char>, Num>, negate: bool)
    requires
        merge_exact(a, b, negate),
        all_exact(a, b, negate),
    ensures
        sums_exactly(a, b, merged(a, b, negate), negate),
{
    let m = merged(a, b, negate);
    assert forall|k: Seq<char>|
        #[trigger] lookup(m, k).value() == (if negate {
            lookup(a, k).value() - lookup(b, k).value()
        } else {
            lookup(a, k).value() + lookup(b, k).value()
        }) by {
        Num::lemma_zero();
        if b.contains_key(k) {
            assert(add_is_exact(lookup(a, k), b[k], negate));
            let cv = combined_value(a, b, k, negate).unwrap();
            assert(combined_value(a, b, k, negate) matches Some(n) && in_bounds(n) && n.value()
                == exact_combination(a, b, k, negate));
            lemma_canonical_value(cv);
        }
    }
}

/// Where every value combines exactly both ways, adding `b` into `a` gives
/// the map that adding `a` into `b` does.
pub proof fn lemma_merged_commutes(a: Map<Seq<char>, Num>, b: Map<Seq<char>, Num>)
    requires
        all_storable(a),
        all_storable(b),
        merge_exact(a, b, false),
        merge_exact(b, a, false),
        all_exact(a, b, false),
        all_exact(b, a, false),
    ensures
        merged(a, b, false) == merged(b, a, false),
{
    let x = merged(a, b, false);
    let y = merged(b, a, false);
    lemma_merged_exact(a, b, false);
    lemma_merged_exact(b, a, false);
    assert forall|k: Seq<char>| #[trigger] x.contains_key(k) == y.contains_key(k) && (x.contains_key(k)
        ==> x[k] == y[k]) by {
        Num::lemma_zero();
        assert(lookup(x, k).value() == lookup(y, k).value());
        if b.contains_key(k) {
            let cx = combined_value(a, b, k, false).unwrap();
            assert(combined_value(a, b, k, false) matches Some(n) && in_bounds(n) && n.value()
                == exact_combination(a, b, k, false));
            lemma_canonical_value(cx);
            if a.contains_key(k) {
                let cy = combined_value(b, a, k, false).unwrap();
                assert(combined_value(b, a, k, false) matches Some(n) && in_bounds(n) && n.value()
                    == exact_combination(b, a, k, false));
                lemma_canonical_value(cy);
                lemma_canonical(cx, canonical(cy));
            } else {
                assert(storable(b[k]));
                lemma_canonical(cx, b[k]);
            }
        } else if a.contains_key(k) {
            let cy = combined_value(b, a, k, false).unwrap();
            assert(combined_value(b, a, k, false) matches Some(n) && in_bounds(n) && n.value()
                == exact_combination(b, a, k, false));
            lemma_canonical_value(cy);
            assert(storable(a[k]));
            lemma_canonical(cy, a[k]);
        }
    }
    assert(x =~= y);
}

/// Where every step is exact, combining `b` into `a` and then taking it back
/// out (subtracting after adding, or adding after subtracting) gives `a`.
pub proof fn lemma_merged_undone(a: Map<Seq<char>, Num>, b: Map<Seq<char>, Num>, negate: bool)
    requires
        all_storable(a),
        merge_exact(a, b, negate),
        all_exact(a, b, negate),
        merge_exact(merged(a, b, negate), b, !negate),
        all_exact(merged(a, b, negate), b, !negate),
    ensures
        merged(merged(a, b, negate), b, !negate) == a,
{
    let s = merged(a, b, negate);
    let t = merged(s, b, !negate);
    lemma_merged_exact(a, b, negate);
    lemma_merged_exact(s, b, !negate);
    assert forall|k: Seq<char>| #[trigger] t.contains_key(k) == a.contains_key(k) && (t.contains_key(k)
        ==> t[k] == a[k]) by {
        Num::lemma_zero();
        assert(lookup(t, k).value() == lookup(s, k).value() + (if negate {
            lookup(b, k).value()
        } else {
            -lookup(b, k).value()
        }));
        assert(lookup(s, k).value() == lookup(a, k).value() + (if negate {
            -lookup(b, k).value()
        } else {
            lookup(b, k).value()
        }));
        if b.contains_key(k) {
            let c = combined_value(s, b, k, !negate).unwrap();
            assert(combined_value(s, b, k, !negate) matches Some(n) && in_bounds(n) && n.value()
                == exact_combination(s, b, k, !negate));
            lemma_canonical_value(c);
            if a.contains_key(k) {
                assert(storable(a[k]));
                lemma_canonical(c, a[k]);
            }
        }
    }
    assert(t =~= a);
}

/// Whether combining every value of `b` into `a` stays within bounds.
pub open spec fn merge_ok(a: Map<Seq<char>, Num>, b: Map<Seq<char>, Num>, negate: bool) -> bool {
    forall|k: Seq<char>| #[trigger] b.contains_key(k) ==> combined_value(a, b, k, negate) is Some
}

/// `a` with each value of `b` added (or subtracted) into it, normalized, zero
/// values removed.
pub open spec fn merged(a: Map<Seq<char>, Num>, b: Map<Seq<char>, Num>, negate: bool) -> Map<
    Seq<char>,
    Num,
> {
    Map::new(
        |k: Seq<char>|
            if b.contains_key(k) {
                canonical(combined_value(a, b, k, negate).unwrap()).value() != 0
            } else {
                a.contains_key(k)
            },
        |k: Seq<char>|
            if b.contains_key(k) {
                canonical(combined_value(a, b, k, negate).unwrap())
            } else {
                a[k]
            },
    )
}

/// `a[k] * f` (or `/ f` with `divide`).
pub open spec fn scaled_value(a: Map<Seq<char>, Num>, k: Seq<char>, f: Num, divide: bool) -> Option<
    Num,
> {
    if divide {
        spec_quotient(a[k], f)
    } else {
        spec_product(a[k], f)
    }
}

/// Whether scaling every value of `a` stays within bounds.
pub open spec fn scale_ok(a: Map<Seq<char>, Num>, f: Num, divide: bool) -> bool {
    forall|k: Seq<char>| #[trigger] a.contains_key(k) ==> scaled_value(a, k, f, divide) is Some
}

/// Every value of `a` multiplied (or divided) by `f`, normalized, zero values
/// removed.
pub open spec fn scaled(a: Map<Seq<char>, Num>, f: Num, divide: bool) -> Map<Seq<char>, Num> {
    Map::new(
        |k: Seq<char>|
            a.contains_key(k) && canonical(scaled_value(a, k, f, divide).unwrap()).value() != 0,
        |k: Seq<char>| canonical(scaled_value(a, k, f, divide).unwrap()),
    )
}

/// Whether some value of a map is above zero.
pub open spec fn any_positive(m: Map<Seq<char>, Num>) -> bool {
    exists|k: Seq<char>| #[trigger] m.contains_key(k) && m[k].value() > 0
}

/// Whether some value of a map is below zero.
pub open spec fn any_negative(m: Map<Seq<char>, Num>) -> bool {
    exists|k: Seq<char>| #[trigger] m.contains_key(k) && m[k].value() < 0
}

/// Whether some key of `a` is missing from `b`.
pub open spec fn any_missing(a: Map<Seq<char>, Num>, b: Map<Seq<char>, Num>) -> bool {
    exists|k: Seq<char>| #[trigger] a.contains_key(k) && !b.contains_key(k)
}

proof fn lemma_entries_map_index(s: Seq<(String, Num)>, i: int)
    requires
        keys_unique(s),
        0 <= i < s.len(),
    ensures
        entries_map(s).contains_key(s[i].0@),
        entries_map(s)[s[i].0@] == s[i].1,
{
    let k = s[i].0@;
    assert(entries_map(s).dom().contains(k));
    let j = choose|j: int| 0 <= j < s.len() && #[trigger] s[j].0@ == k;
    assert(j == i);
}

proof fn lemma_entries_map_push(s: Seq<(String, Num)>, e: (String, Num))
    requires
        keys_unique(s),
        !entries_map(s).contains_key(e.0@),
    ensures
        keys_unique(s.push(e)),
        entries_map(s.push(e)) == entries_map(s).insert(e.0@, e.1),
{
    let t = s.push(e);
    assert forall|i: int, j: int| 0 <= i < t.len() && 0 <= j < t.len() && i != j implies #[trigger] t[i].0@
        != #[trigger] t[j].0@ by {
        if i == s.len() {
            if t[j].0@ == e.0@ {
                assert(s[j].0@ == e.0@);
                assert(entries_map(s).contains_key(e.0@));
            }
        } else if j == s.len() {
            if t[i].0@ == e.0@ {
                assert(s[i].0@ == e.0@);
                assert(entries_map(s).contains_key(e.0@));
            }
        }
    }
    let m1 = entries_map(t);
    let m2 = entries_map(s).insert(e.0@, e.1);
    assert forall|k: Seq<char>| m1.contains_key(k) <==> m2.contains_key(k) by {
        if m2.contains_key(k) {
            if k == e.0@ {
                assert(t[s.len() as int].0@ == k);
            } else {
                let i = choose|i: int| 0 <= i < s.len() && #[trigger] s[i].0@ == k;
                assert(t[i].0@ == k);
            }
        }
        if m1.contains_key(k) {
            let i = choose|i: int| 0 <= i < t.len() && #[trigger] t[i].0@ == k;
            if i < s.len() {
                assert(s[i].0@ == k);
            }
        }
    }
    assert forall|k: Seq<char>| #[trigger] m1.contains_key(k) implies m1[k] == m2[k] by {
        let i = choose|i: int| 0 <= i < t.len() && #[trigger] t[i].0@ == k;
        lemma_entries_map_index(t, i);
        if i < s.len() {
            lemma_entries_map_index(s, i);
        }
    }
    assert(m1 =~= m2);
}

proof fn lemma_entries_map_update(s: Seq<(String, Num)>, i: int, v: Num)
    requires
        keys_unique(s),
        0 <= i < s.len(),
    ensures
        keys_unique(s.update(i, (s[i].0, v))),
        entries_map(s.update(i, (s[i].0, v))) == entries_map(s).insert(s[i].0@, v),
{
    let t = s.update(i, (s[i].0, v));
    assert forall|a: int, b: int| 0 <= a < t.len() && 0 <= b < t.len() && a != b implies #[trigger] t[a].0@
        != #[trigger] t[b].0@ by {
        assert(t[a].0@ == s[a].0@);
        assert(t[b].0@ == s[b].0@);
    }
    let m1 = entries_map(t);
    let m2 = entries_map(s).insert(s[i].0@, v);
    lemma_entries_map_index(s, i);
    assert forall|k: Seq<char>| m1.contains_key(k) <==> m2.contains_key(k) by {
        if m2.contains_key(k) {
            if k != s[i].0@ {
                let j = choose|j: int| 0 <= j < s.len() && #[trigger] s[j].0@ == k;
                assert(t[j].0@ == k);
            } else {
                assert(t[i].0@ == k);
            }
        }
        if m1.contains_key(k) {
            let j = choose|j: int| 0 <= j < t.len() && #[trigger] t[j].0@ == k;
            assert(s[j].0@ == k);
        }
    }
    assert forall|k: Seq<char>| #[trigger] m1.contains_key(k) implies m1[k] == m2[k] by {
        let j = choose|j: int| 0 <= j < t.len() && #[trigger] t[j].0@ == k;
        lemma_entries_map_index(t, j);
        if j != i {
            lemma_entries_map_index(s, j);
        }
    }
    assert(m1 =~= m2);
}

proof fn lemma_entries_map_remove(s: Seq<(String, Num)>, i: int)
    requires
        keys_unique(s),
        0 <= i < s.len(),
    ensures
        keys_unique(s.remove(i)),
        entries_map(s.remove(i)) == entries_map(s).remove(s[i].0@),
{
    let t = s.remove(i);
    assert forall|a: int, b: int| 0 <= a < t.len() && 0 <= b < t.len() && a != b implies #[trigger] t[a].0@
        != #[trigger] t[b].0@ by {
        let a2 = if a < i {
            a
        } else {
            a + 1
        };
        let b2 = if b < i {
            b
        } else {
            b + 1
        };
        assert(t[a] == s[a2]);
        assert(t[b] == s[b2]);
    }
    let m1 = entries_map(t);
    let m2 = entries_map(s).remove(s[i].0@);
    assert forall|k: Seq<char>| m1.contains_key(k) <==> m2.contains_key(k) by {
        if m2.contains_key(k) {
            let j = choose|j: int| 0 <= j < s.len() && #[trigger] s[j].0@ == k;
            assert(j != i);
            if j < i {
                assert(t[j].0@ == k);
            } else {
                assert(t[j - 1].0@ == k);
            }
        }
        if m1.contains_key(k) {
            let j = choose|j: int| 0 <= j < t.len() && #[trigger] t[j].0@ == k;
            let j2 = if j < i {
                j
            } else {
                j + 1
            };
            assert(s[j2].0@ == k);
            assert(j2 != i);
        }
    }
    assert forall|k: Seq<char>| #[trigger] m1.contains_key(k) implies m1[k] == m2[k] by {
        let j = choose|j: int| 0 <= j < t.len() && #[trigger] t[j].0@ == k;
        lemma_entries_map_index(t, j);
        let j2 = if j < i {
            j
        } else {
            j + 1
        };
        assert(t[j] == s[j2]);
        lemma_entries_map_index(s, j2);
    }
    assert(m1 =~= m2);
}

/// The map that setting each entry in turn gives (a later entry for a key
/// replacing an earlier one, values in their canonical form, zeros left out).
pub open spec fn entries_set(s: Seq<(String, Num)>) -> Map<Seq<char>, Num>
    decreases s.len(),
{
    if s.len() == 0 {
        Map::empty()
    } else {
        set_value(entries_set(s.drop_last()), s.last().0@, canonical(s.last().1))
    }
}

/// A map from string keys to non-zero decimal numbers.
#[derive(Debug)]
pub struct CostMap {
    entries: Vec<(String, Num)>,
}

impl View for CostMap {
    type V = Map<Seq<char>, Num>;

    closed spec fn view(&self) -> Map<Seq<char>, Num> {
        entries_map(self.entries@)
    }
}

impl CostMap {
    /// The values held, in the order they are held.
    pub closed spec fn value_seq(&self) -> Seq<Num> {
        self.entries@.map_values(|e: (String, Num)| e.1)
    }

    /// The keys held, in the order they are held.
    pub closed spec fn key_seq(&self) -> Seq<Seq<char>> {
        self.entries@.map_values(|e: (String, Num)| e.0@)
    }

    /// The values held, in the order they are held, are the map's values at
    /// its keys, in that order; each key of the map comes once.
    pub proof fn lemma_value_seq(&self)
        requires
            self.wf(),
        ensures
            self.key_seq().no_duplicates(),
            self.key_seq().to_set() == self@.dom(),
            self.value_seq() == self.key_seq().map_values(|k: Seq<char>| self@[k]),
            self.value_seq().len() == self@.len(),
    {
        let s = self.entries@;
        let ks = self.key_seq();
        assert forall|i: int, j: int| 0 <= i < ks.len() && 0 <= j < ks.len() && i != j implies ks[i]
            != ks[j] by {
            assert(s[i].0@ == ks[i] && s[j].0@ == ks[j]);
        }
        assert forall|k: Seq<char>| ks.to_set().contains(k) <==> self@.dom().contains(k) by {
            if ks.to_set().contains(k) {
                let i = choose|i: int| 0 <= i < ks.len() && ks[i] == k;
                lemma_entries_map_index(s, i);
            }
            if self@.dom().contains(k) {
                let i = choose|i: int| 0 <= i < s.len() && #[trigger] s[i].0@ == k;
                assert(ks[i] == k);
                assert(ks.contains(k));
            }
        }
        assert(ks.to_set() =~= self@.dom());
        assert forall|i: int| 0 <= i < s.len() implies self.value_seq()[i] == self@[ks[i]] by {
            lemma_entries_map_index(s, i);
        }
        assert(self.value_seq() =~= ks.map_values(|k: Seq<char>| self@[k]));
        self.lemma_len();
    }

    /// The values held, in the order they are held.
    pub fn values(&self) -> (r: Vec<Num>)
        ensures
            r@ == self.value_seq(),
    {
        let mut r: Vec<Num> = Vec::new();
        let mut i: usize = 0;
        while i < self.entries.len()
            invariant
                i <= self.entries@.len(),
                r@ == self.entries@.subrange(0, i as int).map_values(|e: (String, Num)| e.1),
            decreases self.entries.len() - i,
        {
            r.push(self.entries[i].1);
            i = i + 1;
            assert(r@ =~= self.entries@.subrange(0, i as int).map_values(|e: (String, Num)| e.1));
        }
        assert(self.entries@.subrange(0, i as int) =~= self.entries@);
        r
    }
    /// A map with each of the given entries set in turn.
    pub fn from_entries(entries: &Vec<(String, Num)>) -> (r: CostMap)
        ensures
            r.wf(),
            r@ == entries_set(entries@),
    {
        let mut m = CostMap::new();
        let mut i: usize = 0;
        while i < entries.len()
            invariant
                m.wf(),
                i <= entries@.len(),
                m@ == entries_set(entries@.take(i as int)),
            decreases entries.len() - i,
        {
            let v = entries[i].1.normalize();
            m.set(&entries[i].0, v);
            proof {
                assert(entries@.take(i + 1).drop_last() =~= entries@.take(i as int));
            }
            i = i + 1;
        }
        proof {
            assert(entries@.take(i as int) =~= entries@);
        }
        m
    }

    /// The key/value pairs held, each key once.
    pub fn entries(&self) -> (r: Vec<(String, Num)>)
        requires
            self.wf(),
        ensures
            keys_unique(r@),
            entries_map(r@) == self@,
            r@.len() == self@.len(),
    {
        let mut r: Vec<(String, Num)> = Vec::new();
        let mut i: usize = 0;
        while i < self.entries.len()
            invariant
                self.wf(),
                i <= self.entries@.len(),
                r@.len() == i,
                forall|j: int| 0 <= j < i ==> (#[trigger] r@[j]).0@ == self.entries@[j].0@ && r@[j].1 == self.entries@[j].1,
            decreases self.entries.len() - i,
        {
            let k = self.entries[i].0.clone();
            r.push((k, self.entries[i].1));
            i = i + 1;
        }
        proof {
            assert(keys_unique(r@)) by {
                assert forall|a: int, b: int| 0 <= a < r@.len() && 0 <= b < r@.len() && a != b implies #[trigger] r@[a].0@ != #[trigger] r@[b].0@ by {
                    assert(self.entries@[a].0@ != self.entries@[b].0@);
                }
            }
            assert forall|k: Seq<char>| #[trigger] entries_map(r@).contains_key(k) <==> self@.contains_key(k) by {
                if entries_map(r@).contains_key(k) {
                    let j = choose|j: int| 0 <= j < r@.len() && #[trigger] r@[j].0@ == k;
                    assert(self.entries@[j].0@ == k);
                }
                if self@.contains_key(k) {
                    let j = choose|j: int| 0 <= j < self.entries@.len() && #[trigger] self.entries@[j].0@ == k;
                    assert(r@[j].0@ == k);
                }
            }
            assert forall|k: Seq<char>| #[trigger] entries_map(r@).contains_key(k) implies entries_map(r@)[k] == self@[k] by {
                let j = choose|j: int| 0 <= j < r@.len() && #[trigger] r@[j].0@ == k;
                lemma_entries_map_index(r@, j);
                assert(self.entries@[j].0@ == k);
                lemma_entries_map_index(self.entries@, j);
            }
            assert(entries_map(r@) =~= self@);
            lemma_len_of(r@);
        }
        r
    }

    /// Keys do not repeat and every value is storable.
    pub closed spec fn wf(&self) -> bool {
        &&& keys_unique(self.entries@)
        &&& forall|i: int| 0 <= i < self.entries@.len() ==> storable(#[trigger] self.entries@[i].1)
    }

    pub proof fn lemma_wf(&self)
        requires
            self.wf(),
        ensures
            all_storable(self@),
            self@.dom().finite(),
    {
        assert forall|k: Seq<char>| #[trigger] self@.contains_key(k) implies storable(self@[k]) by {
            let i = choose|i: int| 0 <= i < self.entries@.len() && #[trigger] self.entries@[i].0@ == k;
            lemma_entries_map_index(self.entries@, i);
        }
        self.lemma_finite();
    }

    proof fn lemma_finite(&self)
        requires
            keys_unique(self.entries@),
        ensures
            self@.dom().finite(),
    {
        lemma_entries_map_finite(self.entries@);
    }

    /// An empty map.
    pub fn new() -> (r: CostMap)
        ensures
            r.wf(),
            r@ == Map::<Seq<char>, Num>::empty(),
    {
        let r = CostMap { entries: Vec::new() };
        assert(r@ =~= Map::<Seq<char>, Num>::empty());
        r
    }

    /// The number of keys held.
    pub fn len(&self) -> (r: usize)
        requires
            self.wf(),
        ensures
            r == self@.len(),
    {
        proof {
            self.lemma_len();
        }
        self.entries.len()
    }

    proof fn lemma_len(&self)
        requires
            self.wf(),
        ensures
            self@.len() == self.entries@.len(),
    {
        lemma_len_of(self.entries@);
    }

    /// The position of `key`, if held.
    fn find(&self, key: &String) -> (r: Option<usize>)
        requires
            self.wf(),
        ensures
            r is None ==> !self@.contains_key(key@),
            r matches Some(i) ==> i < self.entries@.len() && self.entries@[i as int].0@ == key@,
    {
        let mut i: usize = 0;
        while i < self.entries.len()
            invariant
                0 <= i <= self.entries@.len(),
                forall|j: int| 0 <= j < i ==> #[trigger] self.entries@[j].0@ != key@,
            decreases self.entries.len() - i,
        {
            if self.entries[i].0 == *key {
                return Some(i);
            }
            i = i + 1;
        }
        proof {
            if self@.contains_key(key@) {
                let j = choose|j: int|
                    0 <= j < self.entries@.len() && #[trigger] self.entries@[j].0@ == key@;
                assert(self.entries@[j].0@ != key@);
            }
        }
        None
    }

    /// The value held at `key`, or zero.
    pub fn get(&self, key: &String) -> (r: Num)
        requires
            self.wf(),
        ensures
            r == lookup(self@, key@),
    {
        match self.find(key) {
            Some(i) => {
                proof {
                    lemma_entries_map_index(self.entries@, i as int);
                }
                self.entries[i].1
            },
            None => Num::zero(),
        }
    }

    /// Set `key` to the normalized `value`, removing it when `value` is zero.
    pub fn set(&mut self, key: &String, value: Num)
        requires
            old(self).wf(),
            is_normalized(value),
        ensures
            final(self).wf(),
            final(self)@ == set_value(old(self)@, key@, value),
    {
        proof {
            use_type_invariant(&value);
        }
        let zero = value.is_zero();
        match self.find(key) {
            Some(i) => {
                proof {
                    lemma_entries_map_index(self.entries@, i as int);
                }
                if zero {
                    proof {
                        lemma_entries_map_remove(self.entries@, i as int);
                    }
                    self.entries.remove(i);
                } else {
                    let k = self.entries[i].0.clone();
                    proof {
                        lemma_entries_map_update(self.entries@, i as int, value);
                    }
                    self.entries.set(i, (k, value));
                }
            },
            None => {
                if zero {
                    assert(self@.remove(key@) =~= self@);
                } else {
                    let k = key.clone();
                    proof {
                        lemma_entries_map_push(self.entries@, (k, value));
                    }
                    self.entries.push((k, value));
                }
            },
        }
    }
    /// Add (or, with `negate`, subtract) every value of `other` into this map.
    /// Returns false, leaving the map in an unspecified state, where some sum
    /// overflows.
    pub fn merge(&mut self, other: &CostMap, negate: bool) -> (ok: bool)
        requires
            old(self).wf(),
            other.wf(),
        ensures
            ok == merge_ok(old(self)@, other@, negate),
            ok ==> final(self).wf() && final(self)@ == merged(old(self)@, other@, negate),
            ok ==> merge_exact(old(self)@, other@, negate),
    {
        let ghost a = self@;
        let ghost b = other@;
        let mut i: usize = 0;
        assert(merged(a, entries_map(other.entries@.take(0)), negate) =~= a) by {
            assert(entries_map(other.entries@.take(0)) =~= Map::<Seq<char>, Num>::empty());
        }
        while i < other.entries.len()
            invariant
                self.wf(),
                other.wf(),
                b == other@,
                a == old(self)@,
                0 <= i <= other.entries@.len(),
                self@ == merged(a, entries_map(other.entries@.take(i as int)), negate),
                merge_ok(a, entries_map(other.entries@.take(i as int)), negate),
                merge_exact(a, entries_map(other.entries@.take(i as int)), negate),
            decreases other.entries.len() - i,
        {
            let ghost pre = entries_map(other.entries@.take(i as int));
            let ghost s = other.entries@;
            let key = &other.entries[i].0;
            let val = other.entries[i].1;
            proof {
                lemma_entries_map_index(s, i as int);
                assert(s.take(i as int + 1) =~= s.take(i as int).push(s[i as int]));
                assert(keys_unique(s.take(i as int)));
                assert(!pre.contains_key(key@)) by {
                    if pre.contains_key(key@) {
                        let j = choose|j: int|
                            0 <= j < s.take(i as int).len() && #[trigger] s.take(i as int)[j].0@
                                == key@;
                        assert(s[j].0@ == s[i as int].0@);
                    }
                }
                lemma_entries_map_push(s.take(i as int), s[i as int]);
                assert(lookup(self@, key@) == lookup(a, key@));
            }
            let cur = self.get(key);
            let r = if negate {
                cur.checked_sub(&val)
            } else {
                cur.checked_add(&val)
            };
            match r {
                None => {
                    assert(b.contains_key(key@));
                    assert(combined_value(a, b, key@, negate) is None);
                    return false;
                },
                Some(n) => {
                    let c = n.normalize();
                    proof {
                        use_type_invariant(&n);
                        lemma_merged_step(a, pre, key@, val, negate);
                        let b2 = pre.insert(key@, val);
                        assert forall|k: Seq<char>|
                            #![trigger combined_value(a, b2, k, negate)]
                            b2.contains_key(k) && add_is_exact(lookup(a, k), b2[k], negate) implies (
                        combined_value(a, b2, k, negate) matches Some(m) && in_bounds(m) && m.value()
                            == exact_combination(a, b2, k, negate)) by {
                            if k != key@ {
                                assert(combined_value(a, b2, k, negate) == combined_value(
                                    a,
                                    pre,
                                    k,
                                    negate,
                                ));
                            }
                        }
                    }
                    self.set(key, c);
                },
            }
            i = i + 1;
        }
        assert(other.entries@.take(other.entries@.len() as int) =~= other.entries@);
        true
    }

    /// Multiply (or, with `divide`, divide) every value by `f`. `None` where
    /// some result overflows (or, dividing, where `f` is zero and the map is
    /// not empty).
    pub fn scale(&self, f: Num, divide: bool) -> (r: Option<CostMap>)
        requires
            self.wf(),
        ensures
            r is Some <==> scale_ok(self@, f, divide),
            r matches Some(m) ==> m.wf() && m@ == scaled(self@, f, divide),
    {
        let mut out = CostMap::new();
        let mut i: usize = 0;
        assert(scaled(entries_map(self.entries@.take(0)), f, divide) =~= out@) by {
            assert(entries_map(self.entries@.take(0)) =~= Map::<Seq<char>, Num>::empty());
        }
        while i < self.entries.len()
            invariant
                self.wf(),
                out.wf(),
                0 <= i <= self.entries@.len(),
                out@ == scaled(entries_map(self.entries@.take(i as int)), f, divide),
                scale_ok(entries_map(self.entries@.take(i as int)), f, divide),
            decreases self.entries.len() - i,
        {
            let ghost pre = entries_map(self.entries@.take(i as int));
            let ghost s = self.entries@;
            let key = &self.entries[i].0;
            let val = self.entries[i].1;
            proof {
                lemma_entries_map_index(s, i as int);
                assert(s.take(i as int + 1) =~= s.take(i as int).push(s[i as int]));
                assert(keys_unique(s.take(i as int)));
                assert(!pre.contains_key(key@)) by {
                    if pre.contains_key(key@) {
                        let j = choose|j: int|
                            0 <= j < s.take(i as int).len() && #[trigger] s.take(i as int)[j].0@
                                == key@;
                        assert(s[j].0@ == s[i as int].0@);
                    }
                }
                lemma_entries_map_push(s.take(i as int), s[i as int]);
            }
            let r = if divide {
                val.checked_div(&f)
            } else {
                val.checked_mul(&f)
            };
            match r {
                None => {
                    assert(scaled_value(self@, key@, f, divide) is None);
                    return None;
                },
                Some(n) => {
                    let c = n.normalize();
                    proof {
                        lemma_scaled_step(pre, key@, val, f, divide);
                    }
                    out.set(key, c);
                },
            }
            i = i + 1;
        }
        assert(self.entries@.take(self.entries@.len() as int) =~= self.entries@);
        Some(out)
    }

    /// Whether some value is above zero.
    pub fn any_positive(&self) -> (r: bool)
        requires
            self.wf(),
        ensures
            r == any_positive(self@),
    {
        let mut i: usize = 0;
        while i < self.entries.len()
            invariant
                self.wf(),
                0 <= i <= self.entries@.len(),
                forall|j: int| 0 <= j < i ==> (#[trigger] self.entries@[j]).1.value() <= 0,
            decreases self.entries.len() - i,
        {
            if self.entries[i].1.is_positive() {
                proof {
                    lemma_entries_map_index(self.entries@, i as int);
                }
                return true;
            }
            i = i + 1;
        }
        proof {
            if any_positive(self@) {
                let k = choose|k: Seq<char>| #[trigger] self@.contains_key(k) && self@[k].value() > 0;
                let j = choose|j: int|
                    0 <= j < self.entries@.len() && #[trigger] self.entries@[j].0@ == k;
                lemma_entries_map_index(self.entries@, j);
            }
        }
        false
    }

    /// Whether some value is below zero.
    pub fn any_negative(&self) -> (r: bool)
        requires
            self.wf(),
        ensures
            r == any_negative(self@),
    {
        let mut i: usize = 0;
        while i < self.entries.len()
            invariant
                self.wf(),
                0 <= i <= self.entries@.len(),
                forall|j: int| 0 <= j < i ==> (#[trigger] self.entries@[j]).1.value() >= 0,
            decreases self.entries.len() - i,
        {
            if self.entries[i].1.is_negative() {
                proof {
                    lemma_entries_map_index(self.entries@, i as int);
                }
                return true;
            }
            i = i + 1;
        }
        proof {
            if any_negative(self@) {
                let k = choose|k: Seq<char>| #[trigger] self@.contains_key(k) && self@[k].value() < 0;
                let j = choose|j: int|
                    0 <= j < self.entries@.len() && #[trigger] self.entries@[j].0@ == k;
                lemma_entries_map_index(self.entries@, j);
            }
        }
        false
    }

    /// Whether some key held here reads as zero in `other`.
    pub fn any_missing_from(&self, other: &CostMap) -> (r: bool)
        requires
            self.wf(),
            other.wf(),
        ensures
            r == any_missing(self@, other@),
    {
        proof {
            Num::lemma_zero();
            other.lemma_wf();
        }
        let mut i: usize = 0;
        while i < self.entries.len()
            invariant
                self.wf(),
                other.wf(),
                all_storable(other@),
                Num::spec_zero().value() == 0,
                0 <= i <= self.entries@.len(),
                forall|j: int| 0 <= j < i ==> other@.contains_key((#[trigger] self.entries@[j]).0@),
            decreases self.entries.len() - i,
        {
            let v = other.get(&self.entries[i].0);
            proof {
                lemma_entries_map_index(self.entries@, i as int);
            }
            if v.is_zero() {
                assert(self@.contains_key(self.entries@[i as int].0@) && !other@.contains_key(self.entries@[i as int].0@));
                return true;
            }
            i = i + 1;
        }
        proof {
            assert forall|k: Seq<char>| #[trigger] self@.contains_key(k) implies other@.contains_key(k) by {
                let j = choose|j: int|
                    0 <= j < self.entries@.len() && #[trigger] self.entries@[j].0@ == k;
            }
        }
        false
    }

    /// Whether both maps hold the same values.
    pub fn same_as(&self, other: &CostMap) -> (r: bool)
        requires
            self.wf(),
            other.wf(),
        ensures
            r == (self@ == other@),
    {
        proof {
            self.lemma_wf();
            other.lemma_wf();
            self.lemma_len();
            other.lemma_len();
            Num::lemma_zero();
        }
        if self.entries.len() != other.entries.len() {
            return false;
        }
        let mut i: usize = 0;
        while i < self.entries.len()
            invariant
                self.wf(),
                other.wf(),
                all_storable(self@),
                all_storable(other@),
                Num::spec_zero().value() == 0,
                self.entries@.len() == other.entries@.len(),
                self@.len() == self.entries@.len(),
                other@.len() == other.entries@.len(),
                self@.dom().finite(),
                other@.dom().finite(),
                0 <= i <= self.entries@.len(),
                forall|j: int|
                    0 <= j < i ==> other@.contains_key((#[trigger] self.entries@[j]).0@) && other@[self.entries@[j].0@]
                        == self.entries@[j].1,
            decreases self.entries.len() - i,
        {
            let v = other.get(&self.entries[i].0);
            proof {
                lemma_entries_map_index(self.entries@, i as int);
            }
            if !v.eq_value(&self.entries[i].1) {
                return false;
            }
            proof {
                let k = self.entries@[i as int].0@;
                if !other@.contains_key(k) {
                    assert(false);
                }
                lemma_normalized_unique(other@[k], self.entries@[i as int].1);
            }
            i = i + 1;
        }
        proof {
            assert(self@.dom().subset_of(other@.dom())) by {
                assert forall|k: Seq<char>| self@.contains_key(k) implies other@.contains_key(k) by {
                    let j = choose|j: int|
                        0 <= j < self.entries@.len() && #[trigger] self.entries@[j].0@ == k;
                }
            }
            vstd::set_lib::lemma_subset_equality(self@.dom(), other@.dom());
            assert forall|k: Seq<char>| #[trigger] self@.contains_key(k) implies self@[k] == other@[k] by {
                let j = choose|j: int|
                    0 <= j < self.entries@.len() && #[trigger] self.entries@[j].0@ == k;
                lemma_entries_map_index(self.entries@, j);
            }
            assert(self@ =~= other@);
        }
        true
    }
}

impl Clone for CostMap {
    fn clone(&self) -> (r: CostMap)
        ensures
            r@ == self@,
            self.wf() ==> r.wf(),
    {
        let mut entries: Vec<(String, Num)> = Vec::new();
        let mut i: usize = 0;
        while i < self.entries.len()
            invariant
                0 <= i <= self.entries@.len(),
                entries@ == self.entries@.take(i as int),
            decreases self.entries.len() - i,
        {
            let k = self.entries[i].0.clone();
            let v = self.entries[i].1;
            entries.push((k, v));
            assert(self.entries@.take(i as int + 1) =~= self.entries@.take(i as int).push(
                self.entries@[i as int],
            ));
            i = i + 1;
        }
        assert(self.entries@.take(self.entries@.len() as int) =~= self.entries@);
        CostMap { entries }
    }
}

proof fn lemma_merged_step(
    a: Map<Seq<char>, Num>,
    pre: Map<Seq<char>, Num>,
    k: Seq<char>,
    v: Num,
    negate: bool,
)
    requires
        !pre.contains_key(k),
        combined_value(a, pre.insert(k, v), k, negate) is Some,
    ensures
        merged(a, pre.insert(k, v), negate) == set_value(
            merged(a, pre, negate),
            k,
            canonical(combined_value(a, pre.insert(k, v), k, negate).unwrap()),
        ),
        merge_ok(a, pre, negate) ==> merge_ok(a, pre.insert(k, v), negate),
{
    let b2 = pre.insert(k, v);
    let c = canonical(combined_value(a, b2, k, negate).unwrap());
    let lhs = merged(a, b2, negate);
    let rhs = set_value(merged(a, pre, negate), k, c);
    assert forall|j: Seq<char>| j != k implies combined_value(a, b2, j, negate) == combined_value(
        a,
        pre,
        j,
        negate,
    ) by {}
    assert(lhs =~= rhs);
}

proof fn lemma_scaled_step(pre: Map<Seq<char>, Num>, k: Seq<char>, v: Num, f: Num, divide: bool)
    requires
        !pre.contains_key(k),
        scaled_value(pre.insert(k, v), k, f, divide) is Some,
    ensures
        scaled(pre.insert(k, v), f, divide) == set_value(
            scaled(pre, f, divide),
            k,
            canonical(scaled_value(pre.insert(k, v), k, f, divide).unwrap()),
        ),
        scale_ok(pre, f, divide) ==> scale_ok(pre.insert(k, v), f, divide),
{
    let a2 = pre.insert(k, v);
    let c = canonical(scaled_value(a2, k, f, divide).unwrap());
    let lhs = scaled(a2, f, divide);
    let rhs = set_value(scaled(pre, f, divide), k, c);
    assert forall|j: Seq<char>| j != k implies scaled_value(a2, j, f, divide) == scaled_value(
        pre,
        j,
        f,
        divide,
    ) by {}
    assert(lhs =~= rhs);
}

proof fn lemma_len_of(s: Seq<(String, Num)>)
    requires
        keys_unique(s),
    ensures
        entries_map(s).len() == s.len(),
    decreases s.len(),
{
    if s.len() == 0 {
        assert(entries_map(s) =~= Map::<Seq<char>, Num>::empty());
    } else {
        let t = s.drop_last();
        assert(keys_unique(t));
        assert(!entries_map(t).contains_key(s.last().0@)) by {
            if entries_map(t).contains_key(s.last().0@) {
                let i = choose|i: int| 0 <= i < t.len() && #[trigger] t[i].0@ == s.last().0@;
                assert(s[i].0@ == s[s.len() - 1].0@);
            }
        }
        lemma_entries_map_push(t, s.last());
        assert(t.push(s.last()) =~= s);
        lemma_len_of(t);
        lemma_entries_map_finite(t);
    }
}

proof fn lemma_entries_map_finite(s: Seq<(String, Num)>)
    ensures
        entries_map(s).dom().finite(),
{
    let ks = s.map_values(|e: (String, Num)| e.0@);
    let keys = ks.to_set();
    assert(entries_map(s).dom() =~= keys) by {
        assert forall|k: Seq<char>| entries_map(s).dom().contains(k) implies keys.contains(k) by {
            let i = choose|i: int| 0 <= i < s.len() && #[trigger] s[i].0@ == k;
            assert(ks[i] == k);
        }
        assert forall|k: Seq<char>| keys.contains(k) implies entries_map(s).dom().contains(k) by {
            let i = choose|i: int| 0 <= i < ks.len() && #[trigger] ks[i] == k;
            assert(s[i].0@ == k);
        }
    }
    vstd::seq_lib::seq_to_set_is_finite(ks);
}

} // verus!
