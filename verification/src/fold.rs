//! Sums and products of many integers.
use crate::additive::{const_add_assign, wrapping_sum};
use crate::multiply::{const_mul_assign, wrapping_product};
use crate::uint::u206265;
use vstd::prelude::*;

verus! {

/// The sum of the integers in `s`, each addition reduced to the width.
pub open spec fn wrapping_sum_of(s: Seq<u206265>) -> nat
    decreases s.len(),
{
    if s.len() == 0 {
        0
    } else {
        wrapping_sum(wrapping_sum_of(s.drop_last()), s.last()@)
    }
}

/// The product of the integers in `s`, each multiplication reduced to the
/// width.
pub open spec fn wrapping_product_of(s: Seq<u206265>) -> nat
    decreases s.len(),
{
    if s.len() == 0 {
        1
    } else {
        wrapping_product(wrapping_product_of(s.drop_last()), s.last()@)
    }
}

impl u206265 {
    /// The sum of the integers in `items`, starting from zero; each
    /// addition wraps.
    pub fn sum(items: &[u206265]) -> (r: u206265)
        ensures
            r@ == wrapping_sum_of(items@),
    {
        let mut sum = u206265::zero();
        let mut i: usize = 0;
        while i < items.len()
            invariant
                i <= items.len(),
                sum@ == wrapping_sum_of(items@.take(i as int)),
            decreases items.len() - i,
        {
            proof {
                assert(items@.take(i + 1).drop_last() =~= items@.take(i as int));
            }
            const_add_assign(&mut sum, &items[i]);
            i += 1;
        }
        proof {
            assert(items@.take(items.len() as int) =~= items@);
        }
        sum
    }

    /// The product of the integers in `items`, starting from one; each
    /// multiplication wraps.
    pub fn product(items: &[u206265]) -> (r: u206265)
        ensures
            r@ == wrapping_product_of(items@),
    {
        let mut product = u206265::one();
        let mut i: usize = 0;
        while i < items.len()
            invariant
                i <= items.len(),
                product@ == wrapping_product_of(items@.take(i as int)),
            decreases items.len() - i,
        {
            proof {
                assert(items@.take(i + 1).drop_last() =~= items@.take(i as int));
            }
            const_mul_assign(&mut product, &items[i]);
            i += 1;
        }
        proof {
            assert(items@.take(items.len() as int) =~= items@);
        }
        product
    }
}

} // verus!
