//! A storage double map with value-query semantics: keys are pairs of an
//! account-sized and a 32-bit identifier, and a missing entry reads as zero.
use std::collections::HashMap;
use vstd::prelude::*;

verus! {

broadcast use vstd::std_specs::hash::group_hash_axioms;

/// The flat key under which the pair `(a, b)` is stored.
pub open spec fn pair_key(a: u64, b: u32) -> int {
    a as int * 0x1_0000_0000 + b as int
}

/// Distinct pairs are stored under distinct flat keys.
pub proof fn lemma_pair_key_injective(a1: u64, b1: u32, a2: u64, b2: u32)
    ensures
        pair_key(a1, b1) == pair_key(a2, b2) ==> a1 == a2 && b1 == b2,
{
    if a1 != a2 {
        assert(pair_key(a1, b1) != pair_key(a2, b2)) by (nonlinear_arith)
            requires
                a1 != a2,
                0 <= b1 < 0x1_0000_0000,
                0 <= b2 < 0x1_0000_0000,
        ;
    }
}

/// The value stored at `k`, or zero where nothing is stored.
pub open spec fn value_or_zero(m: Map<(u64, u32), u128>, k: (u64, u32)) -> u128 {
    if m.contains_key(k) {
        m[k]
    } else {
        0
    }
}

/// The sum of `g` over the finite set `s`.
pub open spec fn sum_over(s: Set<(u64, u32)>, g: spec_fn((u64, u32)) -> int) -> int
    decreases s.len(),
{
    if s.finite() && s.len() > 0 {
        let a = s.choose();
        proof {
            assert(s.contains(a)) by {
                if s =~= Set::empty() {
                    assert(s.len() == 0);
                }
            }
        }
        g(a) + sum_over(s.remove(a), g)
    } else {
        0
    }
}

/// A sum over a finite set is one element's term plus the sum over the rest.
pub proof fn lemma_sum_over_remove(s: Set<(u64, u32)>, g: spec_fn((u64, u32)) -> int, k: (u64, u32))
    requires
        s.finite(),
        s.contains(k),
    ensures
        sum_over(s, g) == g(k) + sum_over(s.remove(k), g),
    decreases s.len(),
{
    let a = s.choose();
    assert(s.contains(a)) by {
        if s =~= Set::empty() {
            assert(!s.contains(k));
        }
    }
    if a != k {
        lemma_sum_over_remove(s.remove(a), g, k);
        lemma_sum_over_remove(s.remove(k), g, a);
        assert(s.remove(a).remove(k) =~= s.remove(k).remove(a));
    }
}

/// Sums of terms that agree on a finite set are equal.
pub proof fn lemma_sum_over_congruent(
    s: Set<(u64, u32)>,
    g1: spec_fn((u64, u32)) -> int,
    g2: spec_fn((u64, u32)) -> int,
)
    requires
        s.finite(),
        forall|k: (u64, u32)| s.contains(k) ==> g1(k) == g2(k),
    ensures
        sum_over(s, g1) == sum_over(s, g2),
    decreases s.len(),
{
    if s.len() > 0 {
        let a = s.choose();
        assert(s.contains(a)) by {
            if s =~= Set::empty() {
                assert(s.len() == 0);
            }
        }
        lemma_sum_over_congruent(s.remove(a), g1, g2);
    }
}

/// The value of `m` at `k` if `k`'s second part is `c`, else zero.
pub open spec fn term_in(m: Map<(u64, u32), u128>, c: u32) -> spec_fn((u64, u32)) -> int {
    |k: (u64, u32)| if k.1 == c { m[k] as int } else { 0 }
}

/// The total of the values of `m` whose key's second part is `c`.
pub open spec fn total_in(m: Map<(u64, u32), u128>, c: u32) -> int {
    sum_over(m.dom(), term_in(m, c))
}

/// Storing `v` at `k` changes the total in `k`'s second part by `v` minus what
/// was there, and leaves the other totals alone.
pub proof fn lemma_total_in_insert(m: Map<(u64, u32), u128>, k: (u64, u32), v: u128, c: u32)
    requires
        m.dom().finite(),
    ensures
        total_in(m.insert(k, v), c) == total_in(m, c) + (if k.1 == c {
            v - value_or_zero(m, k)
        } else {
            0
        }),
{
    let m2 = m.insert(k, v);
    let g = term_in(m, c);
    let g2 = term_in(m2, c);
    assert(m2.dom().finite());
    lemma_sum_over_remove(m2.dom(), g2, k);
    assert(m2.dom().remove(k) =~= m.dom().remove(k));
    lemma_sum_over_congruent(m.dom().remove(k), g2, g);
    if m.contains_key(k) {
        lemma_sum_over_remove(m.dom(), g, k);
    } else {
        assert(m.dom().remove(k) =~= m.dom());
    }
}

/// A map from pairs `(u64, u32)` to balances.
#[derive(Clone, Debug)]
pub struct ValueDoubleMap {
    entries: HashMap<u128, u128>,
}

impl View for ValueDoubleMap {
    type V = Map<(u64, u32), u128>;

    closed spec fn view(&self) -> Map<(u64, u32), u128> {
        Map::new(
            |k: (u64, u32)| self.entries@.contains_key(pair_key(k.0, k.1) as u128),
            |k: (u64, u32)| self.entries@[pair_key(k.0, k.1) as u128],
        )
    }
}

fn flat_key(a: u64, b: u32) -> (r: u128)
    ensures
        r as int == pair_key(a, b),
{
    (a as u128) * 0x1_0000_0000u128 + (b as u128)
}

impl ValueDoubleMap {
    /// An empty map.
    pub fn new() -> (r: ValueDoubleMap)
        ensures
            r@ == Map::<(u64, u32), u128>::empty(),
    {
        let r = ValueDoubleMap { entries: HashMap::new() };
        assert(r@ =~= Map::<(u64, u32), u128>::empty());
        r
    }

    /// The value at `(a, b)`, zero where nothing is stored.
    pub fn get(&self, a: u64, b: u32) -> (r: u128)
        ensures
            r == value_or_zero(self@, (a, b)),
    {
        let k = flat_key(a, b);
        match self.entries.get(&k) {
            Some(v) => *v,
            None => 0,
        }
    }

    /// Stores `v` at `(a, b)`.
    pub fn insert(&mut self, a: u64, b: u32, v: u128)
        ensures
            final(self)@ == old(self)@.insert((a, b), v),
    {
        let k = flat_key(a, b);
        self.entries.insert(k, v);
        proof {
            assert forall|p: (u64, u32)| #[trigger] pair_key(p.0, p.1) == pair_key(a, b) implies p == (a, b) by {
                lemma_pair_key_injective(p.0, p.1, a, b);
            }
        }
        assert(self@ =~= old(self)@.insert((a, b), v));
    }
}

} // verus!
