//! Equality and order of hashes.
//!
//! Hashes compare as their bytes do: equal when the byte strings are equal,
//! and otherwise ordered by the first byte in which they differ, a proper
//! prefix coming before its extensions.

use std::cmp::Ordering;
use vstd::prelude::*;
use vstd::std_specs::cmp::{PartialEqSpecImpl, PartialOrdSpecImpl};

verus! {

/// How one byte string stands to another in the lexicographic order.
#[derive(PartialEq, Eq, Clone, Copy, Debug, Structural)]
pub enum Rank {
    Before,
    Same,
    After,
}

/// Whether `a` comes strictly before `b`: after some common prefix, either
/// `a` ends and `b` goes on, or `a` has the smaller byte.
pub open spec fn precedes(a: Seq<u8>, b: Seq<u8>) -> bool {
    exists|k: int| #[trigger] diverges_below(a, b, k)
}

/// `a` and `b` agree on their first `k` bytes and `a` is the lesser at `k`.
pub open spec fn diverges_below(a: Seq<u8>, b: Seq<u8>, k: int) -> bool {
    &&& 0 <= k <= a.len()
    &&& k <= b.len()
    &&& a.take(k) == b.take(k)
    &&& if k == a.len() {
        k < b.len()
    } else {
        k < b.len() && a[k] < b[k]
    }
}

/// The lexicographic rank of `a` against `b`.
pub open spec fn rank(a: Seq<u8>, b: Seq<u8>) -> Rank {
    if a == b {
        Rank::Same
    } else if precedes(a, b) {
        Rank::Before
    } else {
        Rank::After
    }
}

/// Of two different byte strings exactly one precedes the other.
pub proof fn lemma_precedes_total(a: Seq<u8>, b: Seq<u8>)
    ensures
        a != b ==> (precedes(a, b) <==> !precedes(b, a)),
        a == b ==> !precedes(a, b),
{
    if precedes(a, b) {
        let k = choose|k: int| diverges_below(a, b, k);
        assert(a != b);
        if precedes(b, a) {
            let m = choose|m: int| diverges_below(b, a, m);
            lemma_divergence_one_way(a, b, k, m);
        }
    } else if a != b {
        assert(a.take(0) =~= b.take(0));
        lemma_first_difference(a, b, 0);
    }
}

/// The order is transitive.
pub proof fn lemma_precedes_transitive(a: Seq<u8>, b: Seq<u8>, c: Seq<u8>)
    requires
        precedes(a, b),
        precedes(b, c),
    ensures
        precedes(a, c),
{
    let k = choose|k: int| diverges_below(a, b, k);
    let m = choose|m: int| diverges_below(b, c, m);
    let d = if k <= m { k } else { m };
    assert(a.take(d) =~= c.take(d)) by {
        assert forall|i: int| 0 <= i < d implies a[i] == c[i] by {
            assert(a.take(k)[i] == b.take(k)[i]);
            assert(b.take(m)[i] == c.take(m)[i]);
        }
    }
    if k < m {
        assert(b.take(m)[k] == c.take(m)[k]);
    } else if m < k {
        assert(a.take(k)[m] == b.take(k)[m]);
    }
    assert(diverges_below(a, c, d));
}

/// The first position at or after `from` where `a` and `b` differ or one of
/// them ends.
pub open spec fn first_difference(a: Seq<u8>, b: Seq<u8>, from: int) -> int
    decreases a.len() - from,
{
    if 0 <= from < a.len() && from < b.len() && a[from] == b[from] {
        first_difference(a, b, from + 1)
    } else {
        from
    }
}

proof fn lemma_first_difference(a: Seq<u8>, b: Seq<u8>, from: int)
    requires
        0 <= from <= a.len(),
        from <= b.len(),
        a.take(from) == b.take(from),
        a != b,
        !precedes(a, b),
    ensures
        diverges_below(b, a, first_difference(a, b, from)),
    decreases a.len() - from,
{
    if from < a.len() && from < b.len() && a[from] == b[from] {
        assert(a.take(from + 1) =~= a.take(from).push(a[from]));
        assert(b.take(from + 1) =~= b.take(from).push(b[from]));
        lemma_first_difference(a, b, from + 1);
    } else {
        if from == a.len() && from == b.len() {
            assert(a.take(from) =~= a);
            assert(b.take(from) =~= b);
        } else if from == a.len() {
            assert(diverges_below(a, b, from));
        } else if from == b.len() {
        } else {
            if a[from] < b[from] {
                assert(diverges_below(a, b, from));
            }
        }
    }
}

proof fn lemma_divergence_one_way(a: Seq<u8>, b: Seq<u8>, k: int, m: int)
    requires
        diverges_below(a, b, k),
    ensures
        !diverges_below(b, a, m),
{
    if diverges_below(b, a, m) {
        if k < m {
            assert(b.take(m)[k] == a.take(m)[k]);
        } else if m < k {
            assert(a.take(k)[m] == b.take(k)[m]);
        }
    }
}

/// Whether two byte strings are equal.
pub fn same_bytes(a: &[u8], b: &[u8]) -> (same: bool)
    ensures
        same == (a@ == b@),
{
    if a.len() != b.len() {
        return false;
    }
    let mut i: usize = 0;
    while i < a.len()
        invariant
            i <= a.len(),
            a.len() == b.len(),
            forall|j: int| 0 <= j < i ==> a@[j] == b@[j],
        decreases a.len() - i,
    {
        if a[i] != b[i] {
            return false;
        }
        i += 1;
    }
    assert(a@ =~= b@);
    true
}

/// The lexicographic rank of `a` against `b`.
pub fn rank_bytes(a: &[u8], b: &[u8]) -> (r: Rank)
    ensures
        r == rank(a@, b@),
{
    let mut i: usize = 0;
    assert(a@.take(0) =~= b@.take(0));
    while i < a.len() && i < b.len()
        invariant
            i <= a.len(),
            i <= b.len(),
            a@.take(i as int) == b@.take(i as int),
        decreases a.len() - i,
    {
        if a[i] < b[i] {
            assert(diverges_below(a@, b@, i as int));
            assert(a@ != b@);
            return Rank::Before;
        }
        if a[i] > b[i] {
            assert(diverges_below(b@, a@, i as int));
            proof {
                lemma_precedes_total(a@, b@);
            }
            assert(a@ != b@);
            return Rank::After;
        }
        assert(a@.take(i + 1) =~= a@.take(i as int).push(a@[i as int]));
        assert(b@.take(i + 1) =~= b@.take(i as int).push(b@[i as int]));
        i += 1;
    }
    if i < b.len() {
        assert(diverges_below(a@, b@, i as int));
        Rank::Before
    } else if i < a.len() {
        assert(diverges_below(b@, a@, i as int));
        proof {
            lemma_precedes_total(a@, b@);
        }
        Rank::After
    } else {
        assert(a@.take(i as int) =~= a@);
        assert(b@.take(i as int) =~= b@);
        Rank::Same
    }
}

impl PartialEq for crate::hash::Hash {
    fn eq(&self, other: &crate::hash::Hash) -> (same: bool) {
        same_bytes(self.as_slice(), other.as_slice())
    }
}

impl PartialEqSpecImpl for crate::hash::Hash {
    open spec fn obeys_eq_spec() -> bool {
        true
    }

    open spec fn eq_spec(&self, other: &crate::hash::Hash) -> bool {
        self@ == other@
    }
}

impl PartialOrd for crate::hash::Hash {
    fn partial_cmp(&self, other: &crate::hash::Hash) -> (order: Option<Ordering>) {
        match rank_bytes(self.as_slice(), other.as_slice()) {
            Rank::Before => Some(Ordering::Less),
            Rank::Same => Some(Ordering::Equal),
            Rank::After => Some(Ordering::Greater),
        }
    }
}

impl PartialOrdSpecImpl for crate::hash::Hash {
    open spec fn obeys_partial_cmp_spec() -> bool {
        true
    }

    open spec fn partial_cmp_spec(&self, other: &crate::hash::Hash) -> Option<Ordering> {
        match rank(self@, other@) {
            Rank::Before => Some(Ordering::Less),
            Rank::Same => Some(Ordering::Equal),
            Rank::After => Some(Ordering::Greater),
        }
    }
}

} // verus!
