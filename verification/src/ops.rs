//! The arithmetic and bitwise operators on the integer.
//!
//! `+`, `-` and `*` ask that the result fits; `/` and `%` ask for a divisor
//! other than zero. The assigning forms of `+`, `-` and `*` wrap instead.
use crate::additive::{
    const_add, const_add_assign, const_sub, const_sub_assign, difference_underflows,
    sum_overflows, wrapping_difference, wrapping_sum,
};
use crate::bitwise::{
    bytes_and, bytes_not, bytes_or, bytes_xor, const_bitand, const_bitand_assign, const_bitor,
    const_bitor_assign, const_bitxor, const_bitxor_assign, const_not_assign,
};
use crate::divide::{const_div, const_div_assign, const_rem, const_rem_assign};
use crate::multiply::{const_mul, const_mul_assign, product_overflows, wrapping_product};
use crate::uint::{modulus, u206265};
use vstd::arithmetic::div_mod::lemma_small_mod;
use vstd::prelude::*;
use vstd::std_specs::ops::{
    AddSpecImpl, BitAndSpecImpl, BitOrSpecImpl, BitXorSpecImpl, DivSpecImpl, MulSpecImpl,
    NotSpecImpl, RemSpecImpl, SubSpecImpl,
};

verus! {

impl<'lhs, 'rhs> core::ops::Add<&'rhs u206265> for &'lhs u206265 {
    type Output = u206265;

    fn add(self, rhs: &'rhs u206265) -> (r: u206265) {
        let (result, _) = const_add(self, rhs);
        proof {
            lemma_small_mod(self@ + rhs@, modulus());
            use_type_invariant(&result);
            result.lemma_of_nat();
        }
        result
    }
}

impl<'lhs, 'rhs> AddSpecImpl<&'rhs u206265> for &'lhs u206265 {
    open spec fn obeys_add_spec() -> bool {
        true
    }

    open spec fn add_req(self, rhs: &'rhs u206265) -> bool {
        !sum_overflows(self@, rhs@)
    }

    open spec fn add_spec(self, rhs: &'rhs u206265) -> u206265 {
        u206265::of_nat(self@ + rhs@)
    }
}

impl<'lhs> core::ops::Add<u206265> for &'lhs u206265 {
    type Output = u206265;

    fn add(self, rhs: u206265) -> (r: u206265) {
        let (result, _) = const_add(self, &rhs);
        proof {
            lemma_small_mod(self@ + rhs@, modulus());
            use_type_invariant(&result);
            result.lemma_of_nat();
        }
        result
    }
}

impl<'lhs> AddSpecImpl<u206265> for &'lhs u206265 {
    open spec fn obeys_add_spec() -> bool {
        true
    }

    open spec fn add_req(self, rhs: u206265) -> bool {
        !sum_overflows(self@, rhs@)
    }

    open spec fn add_spec(self, rhs: u206265) -> u206265 {
        u206265::of_nat(self@ + rhs@)
    }
}

impl<'rhs> core::ops::Add<&'rhs u206265> for u206265 {
    type Output = u206265;

    fn add(self, rhs: &'rhs u206265) -> (r: u206265) {
        let (result, _) = const_add(&self, rhs);
        proof {
            lemma_small_mod(self@ + rhs@, modulus());
            use_type_invariant(&result);
            result.lemma_of_nat();
        }
        result
    }
}

impl<'rhs> AddSpecImpl<&'rhs u206265> for u206265 {
    open spec fn obeys_add_spec() -> bool {
        true
    }

    open spec fn add_req(self, rhs: &'rhs u206265) -> bool {
        !sum_overflows(self@, rhs@)
    }

    open spec fn add_spec(self, rhs: &'rhs u206265) -> u206265 {
        u206265::of_nat(self@ + rhs@)
    }
}

impl core::ops::Add<u206265> for u206265 {
    type Output = u206265;

    fn add(self, rhs: u206265) -> (r: u206265) {
        let (result, _) = const_add(&self, &rhs);
        proof {
            lemma_small_mod(self@ + rhs@, modulus());
            use_type_invariant(&result);
            result.lemma_of_nat();
        }
        result
    }
}

impl AddSpecImpl<u206265> for u206265 {
    open spec fn obeys_add_spec() -> bool {
        true
    }

    open spec fn add_req(self, rhs: u206265) -> bool {
        !sum_overflows(self@, rhs@)
    }

    open spec fn add_spec(self, rhs: u206265) -> u206265 {
        u206265::of_nat(self@ + rhs@)
    }
}

impl<'rhs> core::ops::AddAssign<&'rhs u206265> for u206265 {
    fn add_assign(&mut self, rhs: &'rhs u206265)
        ensures
            final(self)@ == wrapping_sum(old(self)@, rhs@),
    {
        const_add_assign(self, rhs);
    }
}

impl core::ops::AddAssign<u206265> for u206265 {
    fn add_assign(&mut self, rhs: u206265)
        ensures
            final(self)@ == wrapping_sum(old(self)@, rhs@),
    {
        const_add_assign(self, &rhs);
    }
}

impl<'lhs, 'rhs> core::ops::Sub<&'rhs u206265> for &'lhs u206265 {
    type Output = u206265;

    fn sub(self, rhs: &'rhs u206265) -> (r: u206265) {
        let (result, _) = const_sub(self, rhs);
        proof {
            self.lemma_wf();
            use_type_invariant(&self);
            lemma_small_mod((self@ - rhs@) as nat, modulus());
            use_type_invariant(&result);
            result.lemma_of_nat();
        }
        result
    }
}

impl<'lhs, 'rhs> SubSpecImpl<&'rhs u206265> for &'lhs u206265 {
    open spec fn obeys_sub_spec() -> bool {
        true
    }

    open spec fn sub_req(self, rhs: &'rhs u206265) -> bool {
        !difference_underflows(self@, rhs@)
    }

    open spec fn sub_spec(self, rhs: &'rhs u206265) -> u206265 {
        u206265::of_nat((self@ - rhs@) as nat)
    }
}

impl<'lhs> core::ops::Sub<u206265> for &'lhs u206265 {
    type Output = u206265;

    fn sub(self, rhs: u206265) -> (r: u206265) {
        let (result, _) = const_sub(self, &rhs);
        proof {
            self.lemma_wf();
            use_type_invariant(&self);
            lemma_small_mod((self@ - rhs@) as nat, modulus());
            use_type_invariant(&result);
            result.lemma_of_nat();
        }
        result
    }
}

impl<'lhs> SubSpecImpl<u206265> for &'lhs u206265 {
    open spec fn obeys_sub_spec() -> bool {
        true
    }

    open spec fn sub_req(self, rhs: u206265) -> bool {
        !difference_underflows(self@, rhs@)
    }

    open spec fn sub_spec(self, rhs: u206265) -> u206265 {
        u206265::of_nat((self@ - rhs@) as nat)
    }
}

impl<'rhs> core::ops::Sub<&'rhs u206265> for u206265 {
    type Output = u206265;

    fn sub(self, rhs: &'rhs u206265) -> (r: u206265) {
        let (result, _) = const_sub(&self, rhs);
        proof {
            self.lemma_wf();
            use_type_invariant(&self);
            lemma_small_mod((self@ - rhs@) as nat, modulus());
            use_type_invariant(&result);
            result.lemma_of_nat();
        }
        result
    }
}

impl<'rhs> SubSpecImpl<&'rhs u206265> for u206265 {
    open spec fn obeys_sub_spec() -> bool {
        true
    }

    open spec fn sub_req(self, rhs: &'rhs u206265) -> bool {
        !difference_underflows(self@, rhs@)
    }

    open spec fn sub_spec(self, rhs: &'rhs u206265) -> u206265 {
        u206265::of_nat((self@ - rhs@) as nat)
    }
}

impl core::ops::Sub<u206265> for u206265 {
    type Output = u206265;

    fn sub(self, rhs: u206265) -> (r: u206265) {
        let (result, _) = const_sub(&self, &rhs);
        proof {
            self.lemma_wf();
            use_type_invariant(&self);
            lemma_small_mod((self@ - rhs@) as nat, modulus());
            use_type_invariant(&result);
            result.lemma_of_nat();
        }
        result
    }
}

impl SubSpecImpl<u206265> for u206265 {
    open spec fn obeys_sub_spec() -> bool {
        true
    }

    open spec fn sub_req(self, rhs: u206265) -> bool {
        !difference_underflows(self@, rhs@)
    }

    open spec fn sub_spec(self, rhs: u206265) -> u206265 {
        u206265::of_nat((self@ - rhs@) as nat)
    }
}

impl<'rhs> core::ops::SubAssign<&'rhs u206265> for u206265 {
    fn sub_assign(&mut self, rhs: &'rhs u206265)
        ensures
            final(self)@ == wrapping_difference(old(self)@, rhs@),
    {
        const_sub_assign(self, rhs);
    }
}

impl core::ops::SubAssign<u206265> for u206265 {
    fn sub_assign(&mut self, rhs: u206265)
        ensures
            final(self)@ == wrapping_difference(old(self)@, rhs@),
    {
        const_sub_assign(self, &rhs);
    }
}

impl<'lhs, 'rhs> core::ops::Mul<&'rhs u206265> for &'lhs u206265 {
    type Output = u206265;

    fn mul(self, rhs: &'rhs u206265) -> (r: u206265) {
        let (result, _) = const_mul(self, rhs);
        proof {
            lemma_small_mod(self@ * rhs@, modulus());
            use_type_invariant(&result);
            result.lemma_of_nat();
        }
        result
    }
}

impl<'lhs, 'rhs> MulSpecImpl<&'rhs u206265> for &'lhs u206265 {
    open spec fn obeys_mul_spec() -> bool {
        true
    }

    open spec fn mul_req(self, rhs: &'rhs u206265) -> bool {
        !product_overflows(self@, rhs@)
    }

    open spec fn mul_spec(self, rhs: &'rhs u206265) -> u206265 {
        u206265::of_nat(self@ * rhs@)
    }
}

impl<'lhs> core::ops::Mul<u206265> for &'lhs u206265 {
    type Output = u206265;

    fn mul(self, rhs: u206265) -> (r: u206265) {
        let (result, _) = const_mul(self, &rhs);
        proof {
            lemma_small_mod(self@ * rhs@, modulus());
            use_type_invariant(&result);
            result.lemma_of_nat();
        }
        result
    }
}

impl<'lhs> MulSpecImpl<u206265> for &'lhs u206265 {
    open spec fn obeys_mul_spec() -> bool {
        true
    }

    open spec fn mul_req(self, rhs: u206265) -> bool {
        !product_overflows(self@, rhs@)
    }

    open spec fn mul_spec(self, rhs: u206265) -> u206265 {
        u206265::of_nat(self@ * rhs@)
    }
}

impl<'rhs> core::ops::Mul<&'rhs u206265> for u206265 {
    type Output = u206265;

    fn mul(self, rhs: &'rhs u206265) -> (r: u206265) {
        let (result, _) = const_mul(&self, rhs);
        proof {
            lemma_small_mod(self@ * rhs@, modulus());
            use_type_invariant(&result);
            result.lemma_of_nat();
        }
        result
    }
}

impl<'rhs> MulSpecImpl<&'rhs u206265> for u206265 {
    open spec fn obeys_mul_spec() -> bool {
        true
    }

    open spec fn mul_req(self, rhs: &'rhs u206265) -> bool {
        !product_overflows(self@, rhs@)
    }

    open spec fn mul_spec(self, rhs: &'rhs u206265) -> u206265 {
        u206265::of_nat(self@ * rhs@)
    }
}

impl core::ops::Mul<u206265> for u206265 {
    type Output = u206265;

    fn mul(self, rhs: u206265) -> (r: u206265) {
        let (result, _) = const_mul(&self, &rhs);
        proof {
            lemma_small_mod(self@ * rhs@, modulus());
            use_type_invariant(&result);
            result.lemma_of_nat();
        }
        result
    }
}

impl MulSpecImpl<u206265> for u206265 {
    open spec fn obeys_mul_spec() -> bool {
        true
    }

    open spec fn mul_req(self, rhs: u206265) -> bool {
        !product_overflows(self@, rhs@)
    }

    open spec fn mul_spec(self, rhs: u206265) -> u206265 {
        u206265::of_nat(self@ * rhs@)
    }
}

impl<'rhs> core::ops::MulAssign<&'rhs u206265> for u206265 {
    fn mul_assign(&mut self, rhs: &'rhs u206265)
        ensures
            final(self)@ == wrapping_product(old(self)@, rhs@),
    {
        const_mul_assign(self, rhs);
    }
}

impl core::ops::MulAssign<u206265> for u206265 {
    fn mul_assign(&mut self, rhs: u206265)
        ensures
            final(self)@ == wrapping_product(old(self)@, rhs@),
    {
        const_mul_assign(self, &rhs);
    }
}

impl<'lhs, 'rhs> core::ops::Div<&'rhs u206265> for &'lhs u206265 {
    type Output = u206265;

    fn div(self, rhs: &'rhs u206265) -> (r: u206265) {
        let result = const_div(self, rhs).unwrap();
        proof {
            
            use_type_invariant(&result);
            result.lemma_of_nat();
        }
        result
    }
}

impl<'lhs, 'rhs> DivSpecImpl<&'rhs u206265> for &'lhs u206265 {
    open spec fn obeys_div_spec() -> bool {
        true
    }

    open spec fn div_req(self, rhs: &'rhs u206265) -> bool {
        rhs@ != 0
    }

    open spec fn div_spec(self, rhs: &'rhs u206265) -> u206265 {
        u206265::of_nat(self@ / rhs@)
    }
}

impl<'lhs> core::ops::Div<u206265> for &'lhs u206265 {
    type Output = u206265;

    fn div(self, rhs: u206265) -> (r: u206265) {
        let result = const_div(self, &rhs).unwrap();
        proof {
            
            use_type_invariant(&result);
            result.lemma_of_nat();
        }
        result
    }
}

impl<'lhs> DivSpecImpl<u206265> for &'lhs u206265 {
    open spec fn obeys_div_spec() -> bool {
        true
    }

    open spec fn div_req(self, rhs: u206265) -> bool {
        rhs@ != 0
    }

    open spec fn div_spec(self, rhs: u206265) -> u206265 {
        u206265::of_nat(self@ / rhs@)
    }
}

impl<'rhs> core::ops::Div<&'rhs u206265> for u206265 {
    type Output = u206265;

    fn div(self, rhs: &'rhs u206265) -> (r: u206265) {
        let result = const_div(&self, rhs).unwrap();
        proof {
            
            use_type_invariant(&result);
            result.lemma_of_nat();
        }
        result
    }
}

impl<'rhs> DivSpecImpl<&'rhs u206265> for u206265 {
    open spec fn obeys_div_spec() -> bool {
        true
    }

    open spec fn div_req(self, rhs: &'rhs u206265) -> bool {
        rhs@ != 0
    }

    open spec fn div_spec(self, rhs: &'rhs u206265) -> u206265 {
        u206265::of_nat(self@ / rhs@)
    }
}

impl core::ops::Div<u206265> for u206265 {
    type Output = u206265;

    fn div(self, rhs: u206265) -> (r: u206265) {
        let result = const_div(&self, &rhs).unwrap();
        proof {
            
            use_type_invariant(&result);
            result.lemma_of_nat();
        }
        result
    }
}

impl DivSpecImpl<u206265> for u206265 {
    open spec fn obeys_div_spec() -> bool {
        true
    }

    open spec fn div_req(self, rhs: u206265) -> bool {
        rhs@ != 0
    }

    open spec fn div_spec(self, rhs: u206265) -> u206265 {
        u206265::of_nat(self@ / rhs@)
    }
}

impl<'rhs> core::ops::DivAssign<&'rhs u206265> for u206265 {
    fn div_assign(&mut self, rhs: &'rhs u206265)
        requires
            rhs@ != 0,
        ensures
            final(self)@ == old(self)@ / rhs@,
    {
        const_div_assign(self, rhs);
    }
}

impl core::ops::DivAssign<u206265> for u206265 {
    fn div_assign(&mut self, rhs: u206265)
        requires
            rhs@ != 0,
        ensures
            final(self)@ == old(self)@ / rhs@,
    {
        const_div_assign(self, &rhs);
    }
}

impl<'lhs, 'rhs> core::ops::Rem<&'rhs u206265> for &'lhs u206265 {
    type Output = u206265;

    fn rem(self, rhs: &'rhs u206265) -> (r: u206265) {
        let result = const_rem(self, rhs).unwrap();
        proof {
            
            use_type_invariant(&result);
            result.lemma_of_nat();
        }
        result
    }
}

impl<'lhs, 'rhs> RemSpecImpl<&'rhs u206265> for &'lhs u206265 {
    open spec fn obeys_rem_spec() -> bool {
        true
    }

    open spec fn rem_req(self, rhs: &'rhs u206265) -> bool {
        rhs@ != 0
    }

    open spec fn rem_spec(self, rhs: &'rhs u206265) -> u206265 {
        u206265::of_nat(self@ % rhs@)
    }
}

impl<'lhs> core::ops::Rem<u206265> for &'lhs u206265 {
    type Output = u206265;

    fn rem(self, rhs: u206265) -> (r: u206265) {
        let result = const_rem(self, &rhs).unwrap();
        proof {
            
            use_type_invariant(&result);
            result.lemma_of_nat();
        }
        result
    }
}

impl<'lhs> RemSpecImpl<u206265> for &'lhs u206265 {
    open spec fn obeys_rem_spec() -> bool {
        true
    }

    open spec fn rem_req(self, rhs: u206265) -> bool {
        rhs@ != 0
    }

    open spec fn rem_spec(self, rhs: u206265) -> u206265 {
        u206265::of_nat(self@ % rhs@)
    }
}

impl<'rhs> core::ops::Rem<&'rhs u206265> for u206265 {
    type Output = u206265;

    fn rem(self, rhs: &'rhs u206265) -> (r: u206265) {
        let result = const_rem(&self, rhs).unwrap();
        proof {
            
            use_type_invariant(&result);
            result.lemma_of_nat();
        }
        result
    }
}

impl<'rhs> RemSpecImpl<&'rhs u206265> for u206265 {
    open spec fn obeys_rem_spec() -> bool {
        true
    }

    open spec fn rem_req(self, rhs: &'rhs u206265) -> bool {
        rhs@ != 0
    }

    open spec fn rem_spec(self, rhs: &'rhs u206265) -> u206265 {
        u206265::of_nat(self@ % rhs@)
    }
}

impl core::ops::Rem<u206265> for u206265 {
    type Output = u206265;

    fn rem(self, rhs: u206265) -> (r: u206265) {
        let result = const_rem(&self, &rhs).unwrap();
        proof {
            
            use_type_invariant(&result);
            result.lemma_of_nat();
        }
        result
    }
}

impl RemSpecImpl<u206265> for u206265 {
    open spec fn obeys_rem_spec() -> bool {
        true
    }

    open spec fn rem_req(self, rhs: u206265) -> bool {
        rhs@ != 0
    }

    open spec fn rem_spec(self, rhs: u206265) -> u206265 {
        u206265::of_nat(self@ % rhs@)
    }
}

impl<'rhs> core::ops::RemAssign<&'rhs u206265> for u206265 {
    fn rem_assign(&mut self, rhs: &'rhs u206265)
        requires
            rhs@ != 0,
        ensures
            final(self)@ == old(self)@ % rhs@,
    {
        const_rem_assign(self, rhs);
    }
}

impl core::ops::RemAssign<u206265> for u206265 {
    fn rem_assign(&mut self, rhs: u206265)
        requires
            rhs@ != 0,
        ensures
            final(self)@ == old(self)@ % rhs@,
    {
        const_rem_assign(self, &rhs);
    }
}

impl<'lhs, 'rhs> core::ops::BitAnd<&'rhs u206265> for &'lhs u206265 {
    type Output = u206265;

    fn bitand(self, rhs: &'rhs u206265) -> (r: u206265) {
        let result = const_bitand(self, rhs);
        proof {
            
            use_type_invariant(&result);
            result.lemma_of_bytes();
        }
        result
    }
}

impl<'lhs, 'rhs> BitAndSpecImpl<&'rhs u206265> for &'lhs u206265 {
    open spec fn obeys_bitand_spec() -> bool {
        true
    }

    open spec fn bitand_req(self, rhs: &'rhs u206265) -> bool {
        true
    }

    open spec fn bitand_spec(self, rhs: &'rhs u206265) -> u206265 {
        u206265::of_bytes(bytes_and(self.bytes(), rhs.bytes()))
    }
}

impl<'lhs> core::ops::BitAnd<u206265> for &'lhs u206265 {
    type Output = u206265;

    fn bitand(self, rhs: u206265) -> (r: u206265) {
        let result = const_bitand(self, &rhs);
        proof {
            
            use_type_invariant(&result);
            result.lemma_of_bytes();
        }
        result
    }
}

impl<'lhs> BitAndSpecImpl<u206265> for &'lhs u206265 {
    open spec fn obeys_bitand_spec() -> bool {
        true
    }

    open spec fn bitand_req(self, rhs: u206265) -> bool {
        true
    }

    open spec fn bitand_spec(self, rhs: u206265) -> u206265 {
        u206265::of_bytes(bytes_and(self.bytes(), rhs.bytes()))
    }
}

impl<'rhs> core::ops::BitAnd<&'rhs u206265> for u206265 {
    type Output = u206265;

    fn bitand(self, rhs: &'rhs u206265) -> (r: u206265) {
        let result = const_bitand(&self, rhs);
        proof {
            
            use_type_invariant(&result);
            result.lemma_of_bytes();
        }
        result
    }
}

impl<'rhs> BitAndSpecImpl<&'rhs u206265> for u206265 {
    open spec fn obeys_bitand_spec() -> bool {
        true
    }

    open spec fn bitand_req(self, rhs: &'rhs u206265) -> bool {
        true
    }

    open spec fn bitand_spec(self, rhs: &'rhs u206265) -> u206265 {
        u206265::of_bytes(bytes_and(self.bytes(), rhs.bytes()))
    }
}

impl core::ops::BitAnd<u206265> for u206265 {
    type Output = u206265;

    fn bitand(self, rhs: u206265) -> (r: u206265) {
        let result = const_bitand(&self, &rhs);
        proof {
            
            use_type_invariant(&result);
            result.lemma_of_bytes();
        }
        result
    }
}

impl BitAndSpecImpl<u206265> for u206265 {
    open spec fn obeys_bitand_spec() -> bool {
        true
    }

    open spec fn bitand_req(self, rhs: u206265) -> bool {
        true
    }

    open spec fn bitand_spec(self, rhs: u206265) -> u206265 {
        u206265::of_bytes(bytes_and(self.bytes(), rhs.bytes()))
    }
}

impl<'rhs> core::ops::BitAndAssign<&'rhs u206265> for u206265 {
    fn bitand_assign(&mut self, rhs: &'rhs u206265)
        ensures
            final(self).bytes() == bytes_and(old(self).bytes(), rhs.bytes()),
    {
        const_bitand_assign(self, rhs);
    }
}

impl core::ops::BitAndAssign<u206265> for u206265 {
    fn bitand_assign(&mut self, rhs: u206265)
        ensures
            final(self).bytes() == bytes_and(old(self).bytes(), rhs.bytes()),
    {
        const_bitand_assign(self, &rhs);
    }
}

impl<'lhs, 'rhs> core::ops::BitOr<&'rhs u206265> for &'lhs u206265 {
    type Output = u206265;

    fn bitor(self, rhs: &'rhs u206265) -> (r: u206265) {
        let result = const_bitor(self, rhs);
        proof {
            
            use_type_invariant(&result);
            result.lemma_of_bytes();
        }
        result
    }
}

impl<'lhs, 'rhs> BitOrSpecImpl<&'rhs u206265> for &'lhs u206265 {
    open spec fn obeys_bitor_spec() -> bool {
        true
    }

    open spec fn bitor_req(self, rhs: &'rhs u206265) -> bool {
        true
    }

    open spec fn bitor_spec(self, rhs: &'rhs u206265) -> u206265 {
        u206265::of_bytes(bytes_or(self.bytes(), rhs.bytes()))
    }
}

impl<'lhs> core::ops::BitOr<u206265> for &'lhs u206265 {
    type Output = u206265;

    fn bitor(self, rhs: u206265) -> (r: u206265) {
        let result = const_bitor(self, &rhs);
        proof {
            
            use_type_invariant(&result);
            result.lemma_of_bytes();
        }
        result
    }
}

impl<'lhs> BitOrSpecImpl<u206265> for &'lhs u206265 {
    open spec fn obeys_bitor_spec() -> bool {
        true
    }

    open spec fn bitor_req(self, rhs: u206265) -> bool {
        true
    }

    open spec fn bitor_spec(self, rhs: u206265) -> u206265 {
        u206265::of_bytes(bytes_or(self.bytes(), rhs.bytes()))
    }
}

impl<'rhs> core::ops::BitOr<&'rhs u206265> for u206265 {
    type Output = u206265;

    fn bitor(self, rhs: &'rhs u206265) -> (r: u206265) {
        let result = const_bitor(&self, rhs);
        proof {
            
            use_type_invariant(&result);
            result.lemma_of_bytes();
        }
        result
    }
}

impl<'rhs> BitOrSpecImpl<&'rhs u206265> for u206265 {
    open spec fn obeys_bitor_spec() -> bool {
        true
    }

    open spec fn bitor_req(self, rhs: &'rhs u206265) -> bool {
        true
    }

    open spec fn bitor_spec(self, rhs: &'rhs u206265) -> u206265 {
        u206265::of_bytes(bytes_or(self.bytes(), rhs.bytes()))
    }
}

impl core::ops::BitOr<u206265> for u206265 {
    type Output = u206265;

    fn bitor(self, rhs: u206265) -> (r: u206265) {
        let result = const_bitor(&self, &rhs);
        proof {
            
            use_type_invariant(&result);
            result.lemma_of_bytes();
        }
        result
    }
}

impl BitOrSpecImpl<u206265> for u206265 {
    open spec fn obeys_bitor_spec() -> bool {
        true
    }

    open spec fn bitor_req(self, rhs: u206265) -> bool {
        true
    }

    open spec fn bitor_spec(self, rhs: u206265) -> u206265 {
        u206265::of_bytes(bytes_or(self.bytes(), rhs.bytes()))
    }
}

impl<'rhs> core::ops::BitOrAssign<&'rhs u206265> for u206265 {
    fn bitor_assign(&mut self, rhs: &'rhs u206265)
        ensures
            final(self).bytes() == bytes_or(old(self).bytes(), rhs.bytes()),
    {
        const_bitor_assign(self, rhs);
    }
}

impl core::ops::BitOrAssign<u206265> for u206265 {
    fn bitor_assign(&mut self, rhs: u206265)
        ensures
            final(self).bytes() == bytes_or(old(self).bytes(), rhs.bytes()),
    {
        const_bitor_assign(self, &rhs);
    }
}

impl<'lhs, 'rhs> core::ops::BitXor<&'rhs u206265> for &'lhs u206265 {
    type Output = u206265;

    fn bitxor(self, rhs: &'rhs u206265) -> (r: u206265) {
        let result = const_bitxor(self, rhs);
        proof {
            
            use_type_invariant(&result);
            result.lemma_of_bytes();
        }
        result
    }
}

impl<'lhs, 'rhs> BitXorSpecImpl<&'rhs u206265> for &'lhs u206265 {
    open spec fn obeys_bitxor_spec() -> bool {
        true
    }

    open spec fn bitxor_req(self, rhs: &'rhs u206265) -> bool {
        true
    }

    open spec fn bitxor_spec(self, rhs: &'rhs u206265) -> u206265 {
        u206265::of_bytes(bytes_xor(self.bytes(), rhs.bytes()))
    }
}

impl<'lhs> core::ops::BitXor<u206265> for &'lhs u206265 {
    type Output = u206265;

    fn bitxor(self, rhs: u206265) -> (r: u206265) {
        let result = const_bitxor(self, &rhs);
        proof {
            
            use_type_invariant(&result);
            result.lemma_of_bytes();
        }
        result
    }
}

impl<'lhs> BitXorSpecImpl<u206265> for &'lhs u206265 {
    open spec fn obeys_bitxor_spec() -> bool {
        true
    }

    open spec fn bitxor_req(self, rhs: u206265) -> bool {
        true
    }

    open spec fn bitxor_spec(self, rhs: u206265) -> u206265 {
        u206265::of_bytes(bytes_xor(self.bytes(), rhs.bytes()))
    }
}

impl<'rhs> core::ops::BitXor<&'rhs u206265> for u206265 {
    type Output = u206265;

    fn bitxor(self, rhs: &'rhs u206265) -> (r: u206265) {
        let result = const_bitxor(&self, rhs);
        proof {
            
            use_type_invariant(&result);
            result.lemma_of_bytes();
        }
        result
    }
}

impl<'rhs> BitXorSpecImpl<&'rhs u206265> for u206265 {
    open spec fn obeys_bitxor_spec() -> bool {
        true
    }

    open spec fn bitxor_req(self, rhs: &'rhs u206265) -> bool {
        true
    }

    open spec fn bitxor_spec(self, rhs: &'rhs u206265) -> u206265 {
        u206265::of_bytes(bytes_xor(self.bytes(), rhs.bytes()))
    }
}

impl core::ops::BitXor<u206265> for u206265 {
    type Output = u206265;

    fn bitxor(self, rhs: u206265) -> (r: u206265) {
        let result = const_bitxor(&self, &rhs);
        proof {
            
            use_type_invariant(&result);
            result.lemma_of_bytes();
        }
        result
    }
}

impl BitXorSpecImpl<u206265> for u206265 {
    open spec fn obeys_bitxor_spec() -> bool {
        true
    }

    open spec fn bitxor_req(self, rhs: u206265) -> bool {
        true
    }

    open spec fn bitxor_spec(self, rhs: u206265) -> u206265 {
        u206265::of_bytes(bytes_xor(self.bytes(), rhs.bytes()))
    }
}

impl<'rhs> core::ops::BitXorAssign<&'rhs u206265> for u206265 {
    fn bitxor_assign(&mut self, rhs: &'rhs u206265)
        ensures
            final(self).bytes() == bytes_xor(old(self).bytes(), rhs.bytes()),
    {
        const_bitxor_assign(self, rhs);
    }
}

impl core::ops::BitXorAssign<u206265> for u206265 {
    fn bitxor_assign(&mut self, rhs: u206265)
        ensures
            final(self).bytes() == bytes_xor(old(self).bytes(), rhs.bytes()),
    {
        const_bitxor_assign(self, &rhs);
    }
}

impl core::ops::Not for u206265 {
    type Output = u206265;

    fn not(self) -> (r: u206265) {
        let mut result = self;
        const_not_assign(&mut result);
        proof {
            use_type_invariant(&result);
            result.lemma_of_bytes();
        }
        result
    }
}

impl NotSpecImpl for u206265 {
    open spec fn obeys_not_spec() -> bool {
        true
    }

    open spec fn not_req(self) -> bool {
        true
    }

    open spec fn not_spec(self) -> u206265 {
        u206265::of_bytes(bytes_not(self.bytes()))
    }
}

impl<'lhs> core::ops::Not for &'lhs u206265 {
    type Output = u206265;

    fn not(self) -> (r: u206265) {
        let mut result = self.const_clone();
        const_not_assign(&mut result);
        proof {
            use_type_invariant(&result);
            result.lemma_of_bytes();
        }
        result
    }
}

impl<'lhs> NotSpecImpl for &'lhs u206265 {
    open spec fn obeys_not_spec() -> bool {
        true
    }

    open spec fn not_req(self) -> bool {
        true
    }

    open spec fn not_spec(self) -> u206265 {
        u206265::of_bytes(bytes_not(self.bytes()))
    }
}

} // verus!
