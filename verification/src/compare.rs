//! The total order of the integers: by significant length, then by byte
//! from the most significant end.
use crate::radix::{lemma_shorter_is_less, lemma_value_decided_at, lemma_value_same};
use crate::uint::{u206265, BYTES};
use core::cmp::Ordering;
use vstd::prelude::*;
use vstd::std_specs::cmp::{PartialEqSpecImpl, PartialOrdSpecImpl};

verus! {

/// Compares two integers by the numbers they denote.
pub fn const_cmp(lhs: &u206265, rhs: &u206265) -> (r: Ordering)
    ensures
        r is Less <==> lhs@ < rhs@,
        r is Equal <==> lhs@ == rhs@,
        r is Greater <==> lhs@ > rhs@,
{
    let lhs_bytes = lhs.significant_bytes();
    let rhs_bytes = rhs.significant_bytes();
    if lhs_bytes < rhs_bytes {
        proof {
            lemma_shorter_is_less(lhs@, rhs@, lhs_bytes, rhs_bytes);
        }
        return Ordering::Less;
    }
    if lhs_bytes > rhs_bytes {
        proof {
            lemma_shorter_is_less(rhs@, lhs@, rhs_bytes, lhs_bytes);
        }
        return Ordering::Greater;
    }
    let mut b = lhs_bytes;
    proof {
        assert(lhs.0@ == lhs.bytes());
        assert(rhs.0@ == rhs.bytes());
    }
    while b > 0
        invariant
            b <= BYTES,
            forall|j: int| b <= j < BYTES ==> lhs.0@[j] == rhs.0@[j],
        decreases b,
    {
        b -= 1;
        let l = lhs.0[b];
        let r = rhs.0[b];
        if l < r {
            proof {
                lemma_value_decided_at(lhs.0@, rhs.0@, b);
            }
            return Ordering::Less;
        }
        if l > r {
            proof {
                lemma_value_decided_at(rhs.0@, lhs.0@, b);
            }
            return Ordering::Greater;
        }
    }
    proof {
        lemma_value_same(lhs.0@, rhs.0@);
    }
    Ordering::Equal
}

/// Whether `lhs` denotes a smaller number than `rhs`.
pub fn const_lt(lhs: &u206265, rhs: &u206265) -> (r: bool)
    ensures
        r == (lhs@ < rhs@),
{
    match const_cmp(lhs, rhs) {
        Ordering::Less => true,
        _ => false,
    }
}

/// Whether both integers denote the same number.
pub fn const_eq(lhs: &u206265, rhs: &u206265) -> (r: bool)
    ensures
        r == (lhs@ == rhs@),
{
    match const_cmp(lhs, rhs) {
        Ordering::Equal => true,
        _ => false,
    }
}

impl PartialEq for u206265 {
    fn eq(&self, other: &Self) -> (r: bool) {
        const_eq(self, other)
    }
}

impl PartialEqSpecImpl for u206265 {
    open spec fn obeys_eq_spec() -> bool {
        true
    }

    open spec fn eq_spec(&self, other: &Self) -> bool {
        self@ == other@
    }
}

impl Eq for u206265 {

}

impl PartialOrd for u206265 {
    fn partial_cmp(&self, other: &Self) -> (r: Option<Ordering>) {
        Some(const_cmp(self, other))
    }
}

impl PartialOrdSpecImpl for u206265 {
    open spec fn obeys_partial_cmp_spec() -> bool {
        true
    }

    open spec fn partial_cmp_spec(&self, other: &Self) -> Option<Ordering> {
        if self@ < other@ {
            Some(Ordering::Less)
        } else if self@ == other@ {
            Some(Ordering::Equal)
        } else {
            Some(Ordering::Greater)
        }
    }
}

} // verus!
