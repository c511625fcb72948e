//! The shift operators on the integer, for every native integer type and
//! for the integer itself as the amount.
//!
//! The amount must fit a `u32`. An amount as large as the width is reduced
//! modulo the width.
use crate::shift::{const_shl_assign, const_shr_assign, shifted_left, shifted_right};
use crate::uint::u206265;
use vstd::prelude::*;
use vstd::std_specs::ops::{ShlSpecImpl, ShrSpecImpl};

verus! {

/// The integer shifted left by `amount` bits.
fn shl_by(value: u206265, amount: u32) -> (r: u206265)
    ensures
        r == u206265::of_nat(shifted_left(value@, amount as nat)),
{
    let mut result = value;
    const_shl_assign(&mut result, amount);
    proof {
        use_type_invariant(&result);
        result.lemma_of_nat();
    }
    result
}

/// The integer shifted right by `amount` bits.
fn shr_by(value: u206265, amount: u32) -> (r: u206265)
    ensures
        r == u206265::of_nat(shifted_right(value@, amount as nat)),
{
    let mut result = value;
    const_shr_assign(&mut result, amount);
    proof {
        use_type_invariant(&result);
        result.lemma_of_nat();
    }
    result
}

/// The shift amount that the integer `rhs` denotes.
fn amount_of(rhs: &u206265) -> (amount: u32)
    requires
        rhs@ <= u32::MAX,
    ensures
        amount == rhs@,
{
    rhs.try_into_u32().unwrap()
}

impl core::ops::ShlAssign<u8> for u206265 {
    fn shl_assign(&mut self, rhs: u8)
        requires
            0 <= rhs <= u32::MAX,
        ensures
            final(self)@ == shifted_left(old(self)@, rhs as nat),
    {
        const_shl_assign(self, rhs as u32);
    }
}

impl<'rhs> core::ops::ShlAssign<&'rhs u8> for u206265 {
    fn shl_assign(&mut self, rhs: &'rhs u8)
        requires
            0 <= *rhs <= u32::MAX,
        ensures
            final(self)@ == shifted_left(old(self)@, (*rhs) as nat),
    {
        const_shl_assign(self, *rhs as u32);
    }
}

impl core::ops::Shl<u8> for u206265 {
    type Output = u206265;

    fn shl(self, rhs: u8) -> (r: u206265) {
        shl_by(self, rhs as u32)
    }
}

impl ShlSpecImpl<u8> for u206265 {
    open spec fn obeys_shl_spec() -> bool {
        true
    }

    open spec fn shl_req(self, rhs: u8) -> bool {
        0 <= rhs <= u32::MAX
    }

    open spec fn shl_spec(self, rhs: u8) -> u206265 {
        u206265::of_nat(shifted_left(self@, rhs as nat))
    }
}

impl<'rhs> core::ops::Shl<&'rhs u8> for u206265 {
    type Output = u206265;

    fn shl(self, rhs: &'rhs u8) -> (r: u206265) {
        shl_by(self, *rhs as u32)
    }
}

impl<'rhs> ShlSpecImpl<&'rhs u8> for u206265 {
    open spec fn obeys_shl_spec() -> bool {
        true
    }

    open spec fn shl_req(self, rhs: &'rhs u8) -> bool {
        0 <= *rhs <= u32::MAX
    }

    open spec fn shl_spec(self, rhs: &'rhs u8) -> u206265 {
        u206265::of_nat(shifted_left(self@, (*rhs) as nat))
    }
}

impl<'lhs> core::ops::Shl<u8> for &'lhs u206265 {
    type Output = u206265;

    fn shl(self, rhs: u8) -> (r: u206265) {
        shl_by(self.const_clone(), rhs as u32)
    }
}

impl<'lhs> ShlSpecImpl<u8> for &'lhs u206265 {
    open spec fn obeys_shl_spec() -> bool {
        true
    }

    open spec fn shl_req(self, rhs: u8) -> bool {
        0 <= rhs <= u32::MAX
    }

    open spec fn shl_spec(self, rhs: u8) -> u206265 {
        u206265::of_nat(shifted_left(self@, rhs as nat))
    }
}

impl<'lhs, 'rhs> core::ops::Shl<&'rhs u8> for &'lhs u206265 {
    type Output = u206265;

    fn shl(self, rhs: &'rhs u8) -> (r: u206265) {
        shl_by(self.const_clone(), *rhs as u32)
    }
}

impl<'lhs, 'rhs> ShlSpecImpl<&'rhs u8> for &'lhs u206265 {
    open spec fn obeys_shl_spec() -> bool {
        true
    }

    open spec fn shl_req(self, rhs: &'rhs u8) -> bool {
        0 <= *rhs <= u32::MAX
    }

    open spec fn shl_spec(self, rhs: &'rhs u8) -> u206265 {
        u206265::of_nat(shifted_left(self@, (*rhs) as nat))
    }
}

impl core::ops::ShlAssign<u16> for u206265 {
    fn shl_assign(&mut self, rhs: u16)
        requires
            0 <= rhs <= u32::MAX,
        ensures
            final(self)@ == shifted_left(old(self)@, rhs as nat),
    {
        const_shl_assign(self, rhs as u32);
    }
}

impl<'rhs> core::ops::ShlAssign<&'rhs u16> for u206265 {
    fn shl_assign(&mut self, rhs: &'rhs u16)
        requires
            0 <= *rhs <= u32::MAX,
        ensures
            final(self)@ == shifted_left(old(self)@, (*rhs) as nat),
    {
        const_shl_assign(self, *rhs as u32);
    }
}

impl core::ops::Shl<u16> for u206265 {
    type Output = u206265;

    fn shl(self, rhs: u16) -> (r: u206265) {
        shl_by(self, rhs as u32)
    }
}

impl ShlSpecImpl<u16> for u206265 {
    open spec fn obeys_shl_spec() -> bool {
        true
    }

    open spec fn shl_req(self, rhs: u16) -> bool {
        0 <= rhs <= u32::MAX
    }

    open spec fn shl_spec(self, rhs: u16) -> u206265 {
        u206265::of_nat(shifted_left(self@, rhs as nat))
    }
}

impl<'rhs> core::ops::Shl<&'rhs u16> for u206265 {
    type Output = u206265;

    fn shl(self, rhs: &'rhs u16) -> (r: u206265) {
        shl_by(self, *rhs as u32)
    }
}

impl<'rhs> ShlSpecImpl<&'rhs u16> for u206265 {
    open spec fn obeys_shl_spec() -> bool {
        true
    }

    open spec fn shl_req(self, rhs: &'rhs u16) -> bool {
        0 <= *rhs <= u32::MAX
    }

    open spec fn shl_spec(self, rhs: &'rhs u16) -> u206265 {
        u206265::of_nat(shifted_left(self@, (*rhs) as nat))
    }
}

impl<'lhs> core::ops::Shl<u16> for &'lhs u206265 {
    type Output = u206265;

    fn shl(self, rhs: u16) -> (r: u206265) {
        shl_by(self.const_clone(), rhs as u32)
    }
}

impl<'lhs> ShlSpecImpl<u16> for &'lhs u206265 {
    open spec fn obeys_shl_spec() -> bool {
        true
    }

    open spec fn shl_req(self, rhs: u16) -> bool {
        0 <= rhs <= u32::MAX
    }

    open spec fn shl_spec(self, rhs: u16) -> u206265 {
        u206265::of_nat(shifted_left(self@, rhs as nat))
    }
}

impl<'lhs, 'rhs> core::ops::Shl<&'rhs u16> for &'lhs u206265 {
    type Output = u206265;

    fn shl(self, rhs: &'rhs u16) -> (r: u206265) {
        shl_by(self.const_clone(), *rhs as u32)
    }
}

impl<'lhs, 'rhs> ShlSpecImpl<&'rhs u16> for &'lhs u206265 {
    open spec fn obeys_shl_spec() -> bool {
        true
    }

    open spec fn shl_req(self, rhs: &'rhs u16) -> bool {
        0 <= *rhs <= u32::MAX
    }

    open spec fn shl_spec(self, rhs: &'rhs u16) -> u206265 {
        u206265::of_nat(shifted_left(self@, (*rhs) as nat))
    }
}

impl core::ops::ShlAssign<u32> for u206265 {
    fn shl_assign(&mut self, rhs: u32)
        requires
            0 <= rhs <= u32::MAX,
        ensures
            final(self)@ == shifted_left(old(self)@, rhs as nat),
    {
        const_shl_assign(self, rhs as u32);
    }
}

impl<'rhs> core::ops::ShlAssign<&'rhs u32> for u206265 {
    fn shl_assign(&mut self, rhs: &'rhs u32)
        requires
            0 <= *rhs <= u32::MAX,
        ensures
            final(self)@ == shifted_left(old(self)@, (*rhs) as nat),
    {
        const_shl_assign(self, *rhs as u32);
    }
}

impl core::ops::Shl<u32> for u206265 {
    type Output = u206265;

    fn shl(self, rhs: u32) -> (r: u206265) {
        shl_by(self, rhs as u32)
    }
}

impl ShlSpecImpl<u32> for u206265 {
    open spec fn obeys_shl_spec() -> bool {
        true
    }

    open spec fn shl_req(self, rhs: u32) -> bool {
        0 <= rhs <= u32::MAX
    }

    open spec fn shl_spec(self, rhs: u32) -> u206265 {
        u206265::of_nat(shifted_left(self@, rhs as nat))
    }
}

impl<'rhs> core::ops::Shl<&'rhs u32> for u206265 {
    type Output = u206265;

    fn shl(self, rhs: &'rhs u32) -> (r: u206265) {
        shl_by(self, *rhs as u32)
    }
}

impl<'rhs> ShlSpecImpl<&'rhs u32> for u206265 {
    open spec fn obeys_shl_spec() -> bool {
        true
    }

    open spec fn shl_req(self, rhs: &'rhs u32) -> bool {
        0 <= *rhs <= u32::MAX
    }

    open spec fn shl_spec(self, rhs: &'rhs u32) -> u206265 {
        u206265::of_nat(shifted_left(self@, (*rhs) as nat))
    }
}

impl<'lhs> core::ops::Shl<u32> for &'lhs u206265 {
    type Output = u206265;

    fn shl(self, rhs: u32) -> (r: u206265) {
        shl_by(self.const_clone(), rhs as u32)
    }
}

impl<'lhs> ShlSpecImpl<u32> for &'lhs u206265 {
    open spec fn obeys_shl_spec() -> bool {
        true
    }

    open spec fn shl_req(self, rhs: u32) -> bool {
        0 <= rhs <= u32::MAX
    }

    open spec fn shl_spec(self, rhs: u32) -> u206265 {
        u206265::of_nat(shifted_left(self@, rhs as nat))
    }
}

impl<'lhs, 'rhs> core::ops::Shl<&'rhs u32> for &'lhs u206265 {
    type Output = u206265;

    fn shl(self, rhs: &'rhs u32) -> (r: u206265) {
        shl_by(self.const_clone(), *rhs as u32)
    }
}

impl<'lhs, 'rhs> ShlSpecImpl<&'rhs u32> for &'lhs u206265 {
    open spec fn obeys_shl_spec() -> bool {
        true
    }

    open spec fn shl_req(self, rhs: &'rhs u32) -> bool {
        0 <= *rhs <= u32::MAX
    }

    open spec fn shl_spec(self, rhs: &'rhs u32) -> u206265 {
        u206265::of_nat(shifted_left(self@, (*rhs) as nat))
    }
}

impl core::ops::ShlAssign<u64> for u206265 {
    fn shl_assign(&mut self, rhs: u64)
        requires
            0 <= rhs <= u32::MAX,
        ensures
            final(self)@ == shifted_left(old(self)@, rhs as nat),
    {
        const_shl_assign(self, rhs as u32);
    }
}

impl<'rhs> core::ops::ShlAssign<&'rhs u64> for u206265 {
    fn shl_assign(&mut self, rhs: &'rhs u64)
        requires
            0 <= *rhs <= u32::MAX,
        ensures
            final(self)@ == shifted_left(old(self)@, (*rhs) as nat),
    {
        const_shl_assign(self, *rhs as u32);
    }
}

impl core::ops::Shl<u64> for u206265 {
    type Output = u206265;

    fn shl(self, rhs: u64) -> (r: u206265) {
        shl_by(self, rhs as u32)
    }
}

impl ShlSpecImpl<u64> for u206265 {
    open spec fn obeys_shl_spec() -> bool {
        true
    }

    open spec fn shl_req(self, rhs: u64) -> bool {
        0 <= rhs <= u32::MAX
    }

    open spec fn shl_spec(self, rhs: u64) -> u206265 {
        u206265::of_nat(shifted_left(self@, rhs as nat))
    }
}

impl<'rhs> core::ops::Shl<&'rhs u64> for u206265 {
    type Output = u206265;

    fn shl(self, rhs: &'rhs u64) -> (r: u206265) {
        shl_by(self, *rhs as u32)
    }
}

impl<'rhs> ShlSpecImpl<&'rhs u64> for u206265 {
    open spec fn obeys_shl_spec() -> bool {
        true
    }

    open spec fn shl_req(self, rhs: &'rhs u64) -> bool {
        0 <= *rhs <= u32::MAX
    }

    open spec fn shl_spec(self, rhs: &'rhs u64) -> u206265 {
        u206265::of_nat(shifted_left(self@, (*rhs) as nat))
    }
}

impl<'lhs> core::ops::Shl<u64> for &'lhs u206265 {
    type Output = u206265;

    fn shl(self, rhs: u64) -> (r: u206265) {
        shl_by(self.const_clone(), rhs as u32)
    }
}

impl<'lhs> ShlSpecImpl<u64> for &'lhs u206265 {
    open spec fn obeys_shl_spec() -> bool {
        true
    }

    open spec fn shl_req(self, rhs: u64) -> bool {
        0 <= rhs <= u32::MAX
    }

    open spec fn shl_spec(self, rhs: u64) -> u206265 {
        u206265::of_nat(shifted_left(self@, rhs as nat))
    }
}

impl<'lhs, 'rhs> core::ops::Shl<&'rhs u64> for &'lhs u206265 {
    type Output = u206265;

    fn shl(self, rhs: &'rhs u64) -> (r: u206265) {
        shl_by(self.const_clone(), *rhs as u32)
    }
}

impl<'lhs, 'rhs> ShlSpecImpl<&'rhs u64> for &'lhs u206265 {
    open spec fn obeys_shl_spec() -> bool {
        true
    }

    open spec fn shl_req(self, rhs: &'rhs u64) -> bool {
        0 <= *rhs <= u32::MAX
    }

    open spec fn shl_spec(self, rhs: &'rhs u64) -> u206265 {
        u206265::of_nat(shifted_left(self@, (*rhs) as nat))
    }
}

impl core::ops::ShlAssign<u128> for u206265 {
    fn shl_assign(&mut self, rhs: u128)
        requires
            0 <= rhs <= u32::MAX,
        ensures
            final(self)@ == shifted_left(old(self)@, rhs as nat),
    {
        const_shl_assign(self, rhs as u32);
    }
}

impl<'rhs> core::ops::ShlAssign<&'rhs u128> for u206265 {
    fn shl_assign(&mut self, rhs: &'rhs u128)
        requires
            0 <= *rhs <= u32::MAX,
        ensures
            final(self)@ == shifted_left(old(self)@, (*rhs) as nat),
    {
        const_shl_assign(self, *rhs as u32);
    }
}

impl core::ops::Shl<u128> for u206265 {
    type Output = u206265;

    fn shl(self, rhs: u128) -> (r: u206265) {
        shl_by(self, rhs as u32)
    }
}

impl ShlSpecImpl<u128> for u206265 {
    open spec fn obeys_shl_spec() -> bool {
        true
    }

    open spec fn shl_req(self, rhs: u128) -> bool {
        0 <= rhs <= u32::MAX
    }

    open spec fn shl_spec(self, rhs: u128) -> u206265 {
        u206265::of_nat(shifted_left(self@, rhs as nat))
    }
}

impl<'rhs> core::ops::Shl<&'rhs u128> for u206265 {
    type Output = u206265;

    fn shl(self, rhs: &'rhs u128) -> (r: u206265) {
        shl_by(self, *rhs as u32)
    }
}

impl<'rhs> ShlSpecImpl<&'rhs u128> for u206265 {
    open spec fn obeys_shl_spec() -> bool {
        true
    }

    open spec fn shl_req(self, rhs: &'rhs u128) -> bool {
        0 <= *rhs <= u32::MAX
    }

    open spec fn shl_spec(self, rhs: &'rhs u128) -> u206265 {
        u206265::of_nat(shifted_left(self@, (*rhs) as nat))
    }
}

impl<'lhs> core::ops::Shl<u128> for &'lhs u206265 {
    type Output = u206265;

    fn shl(self, rhs: u128) -> (r: u206265) {
        shl_by(self.const_clone(), rhs as u32)
    }
}

impl<'lhs> ShlSpecImpl<u128> for &'lhs u206265 {
    open spec fn obeys_shl_spec() -> bool {
        true
    }

    open spec fn shl_req(self, rhs: u128) -> bool {
        0 <= rhs <= u32::MAX
    }

    open spec fn shl_spec(self, rhs: u128) -> u206265 {
        u206265::of_nat(shifted_left(self@, rhs as nat))
    }
}

impl<'lhs, 'rhs> core::ops::Shl<&'rhs u128> for &'lhs u206265 {
    type Output = u206265;

    fn shl(self, rhs: &'rhs u128) -> (r: u206265) {
        shl_by(self.const_clone(), *rhs as u32)
    }
}

impl<'lhs, 'rhs> ShlSpecImpl<&'rhs u128> for &'lhs u206265 {
    open spec fn obeys_shl_spec() -> bool {
        true
    }

    open spec fn shl_req(self, rhs: &'rhs u128) -> bool {
        0 <= *rhs <= u32::MAX
    }

    open spec fn shl_spec(self, rhs: &'rhs u128) -> u206265 {
        u206265::of_nat(shifted_left(self@, (*rhs) as nat))
    }
}

impl core::ops::ShlAssign<usize> for u206265 {
    fn shl_assign(&mut self, rhs: usize)
        requires
            0 <= rhs <= u32::MAX,
        ensures
            final(self)@ == shifted_left(old(self)@, rhs as nat),
    {
        const_shl_assign(self, rhs as u32);
    }
}

impl<'rhs> core::ops::ShlAssign<&'rhs usize> for u206265 {
    fn shl_assign(&mut self, rhs: &'rhs usize)
        requires
            0 <= *rhs <= u32::MAX,
        ensures
            final(self)@ == shifted_left(old(self)@, (*rhs) as nat),
    {
        const_shl_assign(self, *rhs as u32);
    }
}

impl core::ops::Shl<usize> for u206265 {
    type Output = u206265;

    fn shl(self, rhs: usize) -> (r: u206265) {
        shl_by(self, rhs as u32)
    }
}

impl ShlSpecImpl<usize> for u206265 {
    open spec fn obeys_shl_spec() -> bool {
        true
    }

    open spec fn shl_req(self, rhs: usize) -> bool {
        0 <= rhs <= u32::MAX
    }

    open spec fn shl_spec(self, rhs: usize) -> u206265 {
        u206265::of_nat(shifted_left(self@, rhs as nat))
    }
}

impl<'rhs> core::ops::Shl<&'rhs usize> for u206265 {
    type Output = u206265;

    fn shl(self, rhs: &'rhs usize) -> (r: u206265) {
        shl_by(self, *rhs as u32)
    }
}

impl<'rhs> ShlSpecImpl<&'rhs usize> for u206265 {
    open spec fn obeys_shl_spec() -> bool {
        true
    }

    open spec fn shl_req(self, rhs: &'rhs usize) -> bool {
        0 <= *rhs <= u32::MAX
    }

    open spec fn shl_spec(self, rhs: &'rhs usize) -> u206265 {
        u206265::of_nat(shifted_left(self@, (*rhs) as nat))
    }
}

impl<'lhs> core::ops::Shl<usize> for &'lhs u206265 {
    type Output = u206265;

    fn shl(self, rhs: usize) -> (r: u206265) {
        shl_by(self.const_clone(), rhs as u32)
    }
}

impl<'lhs> ShlSpecImpl<usize> for &'lhs u206265 {
    open spec fn obeys_shl_spec() -> bool {
        true
    }

    open spec fn shl_req(self, rhs: usize) -> bool {
        0 <= rhs <= u32::MAX
    }

    open spec fn shl_spec(self, rhs: usize) -> u206265 {
        u206265::of_nat(shifted_left(self@, rhs as nat))
    }
}

impl<'lhs, 'rhs> core::ops::Shl<&'rhs usize> for &'lhs u206265 {
    type Output = u206265;

    fn shl(self, rhs: &'rhs usize) -> (r: u206265) {
        shl_by(self.const_clone(), *rhs as u32)
    }
}

impl<'lhs, 'rhs> ShlSpecImpl<&'rhs usize> for &'lhs u206265 {
    open spec fn obeys_shl_spec() -> bool {
        true
    }

    open spec fn shl_req(self, rhs: &'rhs usize) -> bool {
        0 <= *rhs <= u32::MAX
    }

    open spec fn shl_spec(self, rhs: &'rhs usize) -> u206265 {
        u206265::of_nat(shifted_left(self@, (*rhs) as nat))
    }
}

impl core::ops::ShlAssign<i8> for u206265 {
    fn shl_assign(&mut self, rhs: i8)
        requires
            0 <= rhs <= u32::MAX,
        ensures
            final(self)@ == shifted_left(old(self)@, rhs as nat),
    {
        const_shl_assign(self, rhs as u32);
    }
}

impl<'rhs> core::ops::ShlAssign<&'rhs i8> for u206265 {
    fn shl_assign(&mut self, rhs: &'rhs i8)
        requires
            0 <= *rhs <= u32::MAX,
        ensures
            final(self)@ == shifted_left(old(self)@, (*rhs) as nat),
    {
        const_shl_assign(self, *rhs as u32);
    }
}

impl core::ops::Shl<i8> for u206265 {
    type Output = u206265;

    fn shl(self, rhs: i8) -> (r: u206265) {
        shl_by(self, rhs as u32)
    }
}

impl ShlSpecImpl<i8> for u206265 {
    open spec fn obeys_shl_spec() -> bool {
        true
    }

    open spec fn shl_req(self, rhs: i8) -> bool {
        0 <= rhs <= u32::MAX
    }

    open spec fn shl_spec(self, rhs: i8) -> u206265 {
        u206265::of_nat(shifted_left(self@, rhs as nat))
    }
}

impl<'rhs> core::ops::Shl<&'rhs i8> for u206265 {
    type Output = u206265;

    fn shl(self, rhs: &'rhs i8) -> (r: u206265) {
        shl_by(self, *rhs as u32)
    }
}

impl<'rhs> ShlSpecImpl<&'rhs i8> for u206265 {
    open spec fn obeys_shl_spec() -> bool {
        true
    }

    open spec fn shl_req(self, rhs: &'rhs i8) -> bool {
        0 <= *rhs <= u32::MAX
    }

    open spec fn shl_spec(self, rhs: &'rhs i8) -> u206265 {
        u206265::of_nat(shifted_left(self@, (*rhs) as nat))
    }
}

impl<'lhs> core::ops::Shl<i8> for &'lhs u206265 {
    type Output = u206265;

    fn shl(self, rhs: i8) -> (r: u206265) {
        shl_by(self.const_clone(), rhs as u32)
    }
}

impl<'lhs> ShlSpecImpl<i8> for &'lhs u206265 {
    open spec fn obeys_shl_spec() -> bool {
        true
    }

    open spec fn shl_req(self, rhs: i8) -> bool {
        0 <= rhs <= u32::MAX
    }

    open spec fn shl_spec(self, rhs: i8) -> u206265 {
        u206265::of_nat(shifted_left(self@, rhs as nat))
    }
}

impl<'lhs, 'rhs> core::ops::Shl<&'rhs i8> for &'lhs u206265 {
    type Output = u206265;

    fn shl(self, rhs: &'rhs i8) -> (r: u206265) {
        shl_by(self.const_clone(), *rhs as u32)
    }
}

impl<'lhs, 'rhs> ShlSpecImpl<&'rhs i8> for &'lhs u206265 {
    open spec fn obeys_shl_spec() -> bool {
        true
    }

    open spec fn shl_req(self, rhs: &'rhs i8) -> bool {
        0 <= *rhs <= u32::MAX
    }

    open spec fn shl_spec(self, rhs: &'rhs i8) -> u206265 {
        u206265::of_nat(shifted_left(self@, (*rhs) as nat))
    }
}

impl core::ops::ShlAssign<i16> for u206265 {
    fn shl_assign(&mut self, rhs: i16)
        requires
            0 <= rhs <= u32::MAX,
        ensures
            final(self)@ == shifted_left(old(self)@, rhs as nat),
    {
        const_shl_assign(self, rhs as u32);
    }
}

impl<'rhs> core::ops::ShlAssign<&'rhs i16> for u206265 {
    fn shl_assign(&mut self, rhs: &'rhs i16)
        requires
            0 <= *rhs <= u32::MAX,
        ensures
            final(self)@ == shifted_left(old(self)@, (*rhs) as nat),
    {
        const_shl_assign(self, *rhs as u32);
    }
}

impl core::ops::Shl<i16> for u206265 {
    type Output = u206265;

    fn shl(self, rhs: i16) -> (r: u206265) {
        shl_by(self, rhs as u32)
    }
}

impl ShlSpecImpl<i16> for u206265 {
    open spec fn obeys_shl_spec() -> bool {
        true
    }

    open spec fn shl_req(self, rhs: i16) -> bool {
        0 <= rhs <= u32::MAX
    }

    open spec fn shl_spec(self, rhs: i16) -> u206265 {
        u206265::of_nat(shifted_left(self@, rhs as nat))
    }
}

impl<'rhs> core::ops::Shl<&'rhs i16> for u206265 {
    type Output = u206265;

    fn shl(self, rhs: &'rhs i16) -> (r: u206265) {
        shl_by(self, *rhs as u32)
    }
}

impl<'rhs> ShlSpecImpl<&'rhs i16> for u206265 {
    open spec fn obeys_shl_spec() -> bool {
        true
    }

    open spec fn shl_req(self, rhs: &'rhs i16) -> bool {
        0 <= *rhs <= u32::MAX
    }

    open spec fn shl_spec(self, rhs: &'rhs i16) -> u206265 {
        u206265::of_nat(shifted_left(self@, (*rhs) as nat))
    }
}

impl<'lhs> core::ops::Shl<i16> for &'lhs u206265 {
    type Output = u206265;

    fn shl(self, rhs: i16) -> (r: u206265) {
        shl_by(self.const_clone(), rhs as u32)
    }
}

impl<'lhs> ShlSpecImpl<i16> for &'lhs u206265 {
    open spec fn obeys_shl_spec() -> bool {
        true
    }

    open spec fn shl_req(self, rhs: i16) -> bool {
        0 <= rhs <= u32::MAX
    }

    open spec fn shl_spec(self, rhs: i16) -> u206265 {
        u206265::of_nat(shifted_left(self@, rhs as nat))
    }
}

impl<'lhs, 'rhs> core::ops::Shl<&'rhs i16> for &'lhs u206265 {
    type Output = u206265;

    fn shl(self, rhs: &'rhs i16) -> (r: u206265) {
        shl_by(self.const_clone(), *rhs as u32)
    }
}

impl<'lhs, 'rhs> ShlSpecImpl<&'rhs i16> for &'lhs u206265 {
    open spec fn obeys_shl_spec() -> bool {
        true
    }

    open spec fn shl_req(self, rhs: &'rhs i16) -> bool {
        0 <= *rhs <= u32::MAX
    }

    open spec fn shl_spec(self, rhs: &'rhs i16) -> u206265 {
        u206265::of_nat(shifted_left(self@, (*rhs) as nat))
    }
}

impl core::ops::ShlAssign<i32> for u206265 {
    fn shl_assign(&mut self, rhs: i32)
        requires
            0 <= rhs <= u32::MAX,
        ensures
            final(self)@ == shifted_left(old(self)@, rhs as nat),
    {
        const_shl_assign(self, rhs as u32);
    }
}

impl<'rhs> core::ops::ShlAssign<&'rhs i32> for u206265 {
    fn shl_assign(&mut self, rhs: &'rhs i32)
        requires
            0 <= *rhs <= u32::MAX,
        ensures
            final(self)@ == shifted_left(old(self)@, (*rhs) as nat),
    {
        const_shl_assign(self, *rhs as u32);
    }
}

impl core::ops::Shl<i32> for u206265 {
    type Output = u206265;

    fn shl(self, rhs: i32) -> (r: u206265) {
        shl_by(self, rhs as u32)
    }
}

impl ShlSpecImpl<i32> for u206265 {
    open spec fn obeys_shl_spec() -> bool {
        true
    }

    open spec fn shl_req(self, rhs: i32) -> bool {
        0 <= rhs <= u32::MAX
    }

    open spec fn shl_spec(self, rhs: i32) -> u206265 {
        u206265::of_nat(shifted_left(self@, rhs as nat))
    }
}

impl<'rhs> core::ops::Shl<&'rhs i32> for u206265 {
    type Output = u206265;

    fn shl(self, rhs: &'rhs i32) -> (r: u206265) {
        shl_by(self, *rhs as u32)
    }
}

impl<'rhs> ShlSpecImpl<&'rhs i32> for u206265 {
    open spec fn obeys_shl_spec() -> bool {
        true
    }

    open spec fn shl_req(self, rhs: &'rhs i32) -> bool {
        0 <= *rhs <= u32::MAX
    }

    open spec fn shl_spec(self, rhs: &'rhs i32) -> u206265 {
        u206265::of_nat(shifted_left(self@, (*rhs) as nat))
    }
}

impl<'lhs> core::ops::Shl<i32> for &'lhs u206265 {
    type Output = u206265;

    fn shl(self, rhs: i32) -> (r: u206265) {
        shl_by(self.const_clone(), rhs as u32)
    }
}

impl<'lhs> ShlSpecImpl<i32> for &'lhs u206265 {
    open spec fn obeys_shl_spec() -> bool {
        true
    }

    open spec fn shl_req(self, rhs: i32) -> bool {
        0 <= rhs <= u32::MAX
    }

    open spec fn shl_spec(self, rhs: i32) -> u206265 {
        u206265::of_nat(shifted_left(self@, rhs as nat))
    }
}

impl<'lhs, 'rhs> core::ops::Shl<&'rhs i32> for &'lhs u206265 {
    type Output = u206265;

    fn shl(self, rhs: &'rhs i32) -> (r: u206265) {
        shl_by(self.const_clone(), *rhs as u32)
    }
}

impl<'lhs, 'rhs> ShlSpecImpl<&'rhs i32> for &'lhs u206265 {
    open spec fn obeys_shl_spec() -> bool {
        true
    }

    open spec fn shl_req(self, rhs: &'rhs i32) -> bool {
        0 <= *rhs <= u32::MAX
    }

    open spec fn shl_spec(self, rhs: &'rhs i32) -> u206265 {
        u206265::of_nat(shifted_left(self@, (*rhs) as nat))
    }
}

impl core::ops::ShlAssign<i64> for u206265 {
    fn shl_assign(&mut self, rhs: i64)
        requires
            0 <= rhs <= u32::MAX,
        ensures
            final(self)@ == shifted_left(old(self)@, rhs as nat),
    {
        const_shl_assign(self, rhs as u32);
    }
}

impl<'rhs> core::ops::ShlAssign<&'rhs i64> for u206265 {
    fn shl_assign(&mut self, rhs: &'rhs i64)
        requires
            0 <= *rhs <= u32::MAX,
        ensures
            final(self)@ == shifted_left(old(self)@, (*rhs) as nat),
    {
        const_shl_assign(self, *rhs as u32);
    }
}

impl core::ops::Shl<i64> for u206265 {
    type Output = u206265;

    fn shl(self, rhs: i64) -> (r: u206265) {
        shl_by(self, rhs as u32)
    }
}

impl ShlSpecImpl<i64> for u206265 {
    open spec fn obeys_shl_spec() -> bool {
        true
    }

    open spec fn shl_req(self, rhs: i64) -> bool {
        0 <= rhs <= u32::MAX
    }

    open spec fn shl_spec(self, rhs: i64) -> u206265 {
        u206265::of_nat(shifted_left(self@, rhs as nat))
    }
}

impl<'rhs> core::ops::Shl<&'rhs i64> for u206265 {
    type Output = u206265;

    fn shl(self, rhs: &'rhs i64) -> (r: u206265) {
        shl_by(self, *rhs as u32)
    }
}

impl<'rhs> ShlSpecImpl<&'rhs i64> for u206265 {
    open spec fn obeys_shl_spec() -> bool {
        true
    }

    open spec fn shl_req(self, rhs: &'rhs i64) -> bool {
        0 <= *rhs <= u32::MAX
    }

    open spec fn shl_spec(self, rhs: &'rhs i64) -> u206265 {
        u206265::of_nat(shifted_left(self@, (*rhs) as nat))
    }
}

impl<'lhs> core::ops::Shl<i64> for &'lhs u206265 {
    type Output = u206265;

    fn shl(self, rhs: i64) -> (r: u206265) {
        shl_by(self.const_clone(), rhs as u32)
    }
}

impl<'lhs> ShlSpecImpl<i64> for &'lhs u206265 {
    open spec fn obeys_shl_spec() -> bool {
        true
    }

    open spec fn shl_req(self, rhs: i64) -> bool {
        0 <= rhs <= u32::MAX
    }

    open spec fn shl_spec(self, rhs: i64) -> u206265 {
        u206265::of_nat(shifted_left(self@, rhs as nat))
    }
}

impl<'lhs, 'rhs> core::ops::Shl<&'rhs i64> for &'lhs u206265 {
    type Output = u206265;

    fn shl(self, rhs: &'rhs i64) -> (r: u206265) {
        shl_by(self.const_clone(), *rhs as u32)
    }
}

impl<'lhs, 'rhs> ShlSpecImpl<&'rhs i64> for &'lhs u206265 {
    open spec fn obeys_shl_spec() -> bool {
        true
    }

    open spec fn shl_req(self, rhs: &'rhs i64) -> bool {
        0 <= *rhs <= u32::MAX
    }

    open spec fn shl_spec(self, rhs: &'rhs i64) -> u206265 {
        u206265::of_nat(shifted_left(self@, (*rhs) as nat))
    }
}

impl core::ops::ShlAssign<i128> for u206265 {
    fn shl_assign(&mut self, rhs: i128)
        requires
            0 <= rhs <= u32::MAX,
        ensures
            final(self)@ == shifted_left(old(self)@, rhs as nat),
    {
        const_shl_assign(self, rhs as u32);
    }
}

impl<'rhs> core::ops::ShlAssign<&'rhs i128> for u206265 {
    fn shl_assign(&mut self, rhs: &'rhs i128)
        requires
            0 <= *rhs <= u32::MAX,
        ensures
            final(self)@ == shifted_left(old(self)@, (*rhs) as nat),
    {
        const_shl_assign(self, *rhs as u32);
    }
}

impl core::ops::Shl<i128> for u206265 {
    type Output = u206265;

    fn shl(self, rhs: i128) -> (r: u206265) {
        shl_by(self, rhs as u32)
    }
}

impl ShlSpecImpl<i128> for u206265 {
    open spec fn obeys_shl_spec() -> bool {
        true
    }

    open spec fn shl_req(self, rhs: i128) -> bool {
        0 <= rhs <= u32::MAX
    }

    open spec fn shl_spec(self, rhs: i128) -> u206265 {
        u206265::of_nat(shifted_left(self@, rhs as nat))
    }
}

impl<'rhs> core::ops::Shl<&'rhs i128> for u206265 {
    type Output = u206265;

    fn shl(self, rhs: &'rhs i128) -> (r: u206265) {
        shl_by(self, *rhs as u32)
    }
}

impl<'rhs> ShlSpecImpl<&'rhs i128> for u206265 {
    open spec fn obeys_shl_spec() -> bool {
        true
    }

    open spec fn shl_req(self, rhs: &'rhs i128) -> bool {
        0 <= *rhs <= u32::MAX
    }

    open spec fn shl_spec(self, rhs: &'rhs i128) -> u206265 {
        u206265::of_nat(shifted_left(self@, (*rhs) as nat))
    }
}

impl<'lhs> core::ops::Shl<i128> for &'lhs u206265 {
    type Output = u206265;

    fn shl(self, rhs: i128) -> (r: u206265) {
        shl_by(self.const_clone(), rhs as u32)
    }
}

impl<'lhs> ShlSpecImpl<i128> for &'lhs u206265 {
    open spec fn obeys_shl_spec() -> bool {
        true
    }

    open spec fn shl_req(self, rhs: i128) -> bool {
        0 <= rhs <= u32::MAX
    }

    open spec fn shl_spec(self, rhs: i128) -> u206265 {
        u206265::of_nat(shifted_left(self@, rhs as nat))
    }
}

impl<'lhs, 'rhs> core::ops::Shl<&'rhs i128> for &'lhs u206265 {
    type Output = u206265;

    fn shl(self, rhs: &'rhs i128) -> (r: u206265) {
        shl_by(self.const_clone(), *rhs as u32)
    }
}

impl<'lhs, 'rhs> ShlSpecImpl<&'rhs i128> for &'lhs u206265 {
    open spec fn obeys_shl_spec() -> bool {
        true
    }

    open spec fn shl_req(self, rhs: &'rhs i128) -> bool {
        0 <= *rhs <= u32::MAX
    }

    open spec fn shl_spec(self, rhs: &'rhs i128) -> u206265 {
        u206265::of_nat(shifted_left(self@, (*rhs) as nat))
    }
}

impl core::ops::ShlAssign<isize> for u206265 {
    fn shl_assign(&mut self, rhs: isize)
        requires
            0 <= rhs <= u32::MAX,
        ensures
            final(self)@ == shifted_left(old(self)@, rhs as nat),
    {
        const_shl_assign(self, rhs as u32);
    }
}

impl<'rhs> core::ops::ShlAssign<&'rhs isize> for u206265 {
    fn shl_assign(&mut self, rhs: &'rhs isize)
        requires
            0 <= *rhs <= u32::MAX,
        ensures
            final(self)@ == shifted_left(old(self)@, (*rhs) as nat),
    {
        const_shl_assign(self, *rhs as u32);
    }
}

impl core::ops::Shl<isize> for u206265 {
    type Output = u206265;

    fn shl(self, rhs: isize) -> (r: u206265) {
        shl_by(self, rhs as u32)
    }
}

impl ShlSpecImpl<isize> for u206265 {
    open spec fn obeys_shl_spec() -> bool {
        true
    }

    open spec fn shl_req(self, rhs: isize) -> bool {
        0 <= rhs <= u32::MAX
    }

    open spec fn shl_spec(self, rhs: isize) -> u206265 {
        u206265::of_nat(shifted_left(self@, rhs as nat))
    }
}

impl<'rhs> core::ops::Shl<&'rhs isize> for u206265 {
    type Output = u206265;

    fn shl(self, rhs: &'rhs isize) -> (r: u206265) {
        shl_by(self, *rhs as u32)
    }
}

impl<'rhs> ShlSpecImpl<&'rhs isize> for u206265 {
    open spec fn obeys_shl_spec() -> bool {
        true
    }

    open spec fn shl_req(self, rhs: &'rhs isize) -> bool {
        0 <= *rhs <= u32::MAX
    }

    open spec fn shl_spec(self, rhs: &'rhs isize) -> u206265 {
        u206265::of_nat(shifted_left(self@, (*rhs) as nat))
    }
}

impl<'lhs> core::ops::Shl<isize> for &'lhs u206265 {
    type Output = u206265;

    fn shl(self, rhs: isize) -> (r: u206265) {
        shl_by(self.const_clone(), rhs as u32)
    }
}

impl<'lhs> ShlSpecImpl<isize> for &'lhs u206265 {
    open spec fn obeys_shl_spec() -> bool {
        true
    }

    open spec fn shl_req(self, rhs: isize) -> bool {
        0 <= rhs <= u32::MAX
    }

    open spec fn shl_spec(self, rhs: isize) -> u206265 {
        u206265::of_nat(shifted_left(self@, rhs as nat))
    }
}

impl<'lhs, 'rhs> core::ops::Shl<&'rhs isize> for &'lhs u206265 {
    type Output = u206265;

    fn shl(self, rhs: &'rhs isize) -> (r: u206265) {
        shl_by(self.const_clone(), *rhs as u32)
    }
}

impl<'lhs, 'rhs> ShlSpecImpl<&'rhs isize> for &'lhs u206265 {
    open spec fn obeys_shl_spec() -> bool {
        true
    }

    open spec fn shl_req(self, rhs: &'rhs isize) -> bool {
        0 <= *rhs <= u32::MAX
    }

    open spec fn shl_spec(self, rhs: &'rhs isize) -> u206265 {
        u206265::of_nat(shifted_left(self@, (*rhs) as nat))
    }
}

impl core::ops::ShlAssign<u206265> for u206265 {
    fn shl_assign(&mut self, rhs: u206265)
        requires
            rhs@ <= u32::MAX,
        ensures
            final(self)@ == shifted_left(old(self)@, rhs@),
    {
        const_shl_assign(self, amount_of(&rhs));
    }
}

impl<'rhs> core::ops::ShlAssign<&'rhs u206265> for u206265 {
    fn shl_assign(&mut self, rhs: &'rhs u206265)
        requires
            rhs@ <= u32::MAX,
        ensures
            final(self)@ == shifted_left(old(self)@, rhs@),
    {
        const_shl_assign(self, amount_of(rhs));
    }
}

impl core::ops::Shl<u206265> for u206265 {
    type Output = u206265;

    fn shl(self, rhs: u206265) -> (r: u206265) {
        shl_by(self, amount_of(&rhs))
    }
}

impl ShlSpecImpl<u206265> for u206265 {
    open spec fn obeys_shl_spec() -> bool {
        true
    }

    open spec fn shl_req(self, rhs: u206265) -> bool {
        rhs@ <= u32::MAX
    }

    open spec fn shl_spec(self, rhs: u206265) -> u206265 {
        u206265::of_nat(shifted_left(self@, rhs@))
    }
}

impl<'rhs> core::ops::Shl<&'rhs u206265> for u206265 {
    type Output = u206265;

    fn shl(self, rhs: &'rhs u206265) -> (r: u206265) {
        shl_by(self, amount_of(rhs))
    }
}

impl<'rhs> ShlSpecImpl<&'rhs u206265> for u206265 {
    open spec fn obeys_shl_spec() -> bool {
        true
    }

    open spec fn shl_req(self, rhs: &'rhs u206265) -> bool {
        rhs@ <= u32::MAX
    }

    open spec fn shl_spec(self, rhs: &'rhs u206265) -> u206265 {
        u206265::of_nat(shifted_left(self@, rhs@))
    }
}

impl<'lhs> core::ops::Shl<u206265> for &'lhs u206265 {
    type Output = u206265;

    fn shl(self, rhs: u206265) -> (r: u206265) {
        shl_by(self.const_clone(), amount_of(&rhs))
    }
}

impl<'lhs> ShlSpecImpl<u206265> for &'lhs u206265 {
    open spec fn obeys_shl_spec() -> bool {
        true
    }

    open spec fn shl_req(self, rhs: u206265) -> bool {
        rhs@ <= u32::MAX
    }

    open spec fn shl_spec(self, rhs: u206265) -> u206265 {
        u206265::of_nat(shifted_left(self@, rhs@))
    }
}

impl<'lhs, 'rhs> core::ops::Shl<&'rhs u206265> for &'lhs u206265 {
    type Output = u206265;

    fn shl(self, rhs: &'rhs u206265) -> (r: u206265) {
        shl_by(self.const_clone(), amount_of(rhs))
    }
}

impl<'lhs, 'rhs> ShlSpecImpl<&'rhs u206265> for &'lhs u206265 {
    open spec fn obeys_shl_spec() -> bool {
        true
    }

    open spec fn shl_req(self, rhs: &'rhs u206265) -> bool {
        rhs@ <= u32::MAX
    }

    open spec fn shl_spec(self, rhs: &'rhs u206265) -> u206265 {
        u206265::of_nat(shifted_left(self@, rhs@))
    }
}

impl core::ops::ShrAssign<u8> for u206265 {
    fn shr_assign(&mut self, rhs: u8)
        requires
            0 <= rhs <= u32::MAX,
        ensures
            final(self)@ == shifted_right(old(self)@, rhs as nat),
    {
        const_shr_assign(self, rhs as u32);
    }
}

impl<'rhs> core::ops::ShrAssign<&'rhs u8> for u206265 {
    fn shr_assign(&mut self, rhs: &'rhs u8)
        requires
            0 <= *rhs <= u32::MAX,
        ensures
            final(self)@ == shifted_right(old(self)@, (*rhs) as nat),
    {
        const_shr_assign(self, *rhs as u32);
    }
}

impl core::ops::Shr<u8> for u206265 {
    type Output = u206265;

    fn shr(self, rhs: u8) -> (r: u206265) {
        shr_by(self, rhs as u32)
    }
}

impl ShrSpecImpl<u8> for u206265 {
    open spec fn obeys_shr_spec() -> bool {
        true
    }

    open spec fn shr_req(self, rhs: u8) -> bool {
        0 <= rhs <= u32::MAX
    }

    open spec fn shr_spec(self, rhs: u8) -> u206265 {
        u206265::of_nat(shifted_right(self@, rhs as nat))
    }
}

impl<'rhs> core::ops::Shr<&'rhs u8> for u206265 {
    type Output = u206265;

    fn shr(self, rhs: &'rhs u8) -> (r: u206265) {
        shr_by(self, *rhs as u32)
    }
}

impl<'rhs> ShrSpecImpl<&'rhs u8> for u206265 {
    open spec fn obeys_shr_spec() -> bool {
        true
    }

    open spec fn shr_req(self, rhs: &'rhs u8) -> bool {
        0 <= *rhs <= u32::MAX
    }

    open spec fn shr_spec(self, rhs: &'rhs u8) -> u206265 {
        u206265::of_nat(shifted_right(self@, (*rhs) as nat))
    }
}

impl<'lhs> core::ops::Shr<u8> for &'lhs u206265 {
    type Output = u206265;

    fn shr(self, rhs: u8) -> (r: u206265) {
        shr_by(self.const_clone(), rhs as u32)
    }
}

impl<'lhs> ShrSpecImpl<u8> for &'lhs u206265 {
    open spec fn obeys_shr_spec() -> bool {
        true
    }

    open spec fn shr_req(self, rhs: u8) -> bool {
        0 <= rhs <= u32::MAX
    }

    open spec fn shr_spec(self, rhs: u8) -> u206265 {
        u206265::of_nat(shifted_right(self@, rhs as nat))
    }
}

impl<'lhs, 'rhs> core::ops::Shr<&'rhs u8> for &'lhs u206265 {
    type Output = u206265;

    fn shr(self, rhs: &'rhs u8) -> (r: u206265) {
        shr_by(self.const_clone(), *rhs as u32)
    }
}

impl<'lhs, 'rhs> ShrSpecImpl<&'rhs u8> for &'lhs u206265 {
    open spec fn obeys_shr_spec() -> bool {
        true
    }

    open spec fn shr_req(self, rhs: &'rhs u8) -> bool {
        0 <= *rhs <= u32::MAX
    }

    open spec fn shr_spec(self, rhs: &'rhs u8) -> u206265 {
        u206265::of_nat(shifted_right(self@, (*rhs) as nat))
    }
}

impl core::ops::ShrAssign<u16> for u206265 {
    fn shr_assign(&mut self, rhs: u16)
        requires
            0 <= rhs <= u32::MAX,
        ensures
            final(self)@ == shifted_right(old(self)@, rhs as nat),
    {
        const_shr_assign(self, rhs as u32);
    }
}

impl<'rhs> core::ops::ShrAssign<&'rhs u16> for u206265 {
    fn shr_assign(&mut self, rhs: &'rhs u16)
        requires
            0 <= *rhs <= u32::MAX,
        ensures
            final(self)@ == shifted_right(old(self)@, (*rhs) as nat),
    {
        const_shr_assign(self, *rhs as u32);
    }
}

impl core::ops::Shr<u16> for u206265 {
    type Output = u206265;

    fn shr(self, rhs: u16) -> (r: u206265) {
        shr_by(self, rhs as u32)
    }
}

impl ShrSpecImpl<u16> for u206265 {
    open spec fn obeys_shr_spec() -> bool {
        true
    }

    open spec fn shr_req(self, rhs: u16) -> bool {
        0 <= rhs <= u32::MAX
    }

    open spec fn shr_spec(self, rhs: u16) -> u206265 {
        u206265::of_nat(shifted_right(self@, rhs as nat))
    }
}

impl<'rhs> core::ops::Shr<&'rhs u16> for u206265 {
    type Output = u206265;

    fn shr(self, rhs: &'rhs u16) -> (r: u206265) {
        shr_by(self, *rhs as u32)
    }
}

impl<'rhs> ShrSpecImpl<&'rhs u16> for u206265 {
    open spec fn obeys_shr_spec() -> bool {
        true
    }

    open spec fn shr_req(self, rhs: &'rhs u16) -> bool {
        0 <= *rhs <= u32::MAX
    }

    open spec fn shr_spec(self, rhs: &'rhs u16) -> u206265 {
        u206265::of_nat(shifted_right(self@, (*rhs) as nat))
    }
}

impl<'lhs> core::ops::Shr<u16> for &'lhs u206265 {
    type Output = u206265;

    fn shr(self, rhs: u16) -> (r: u206265) {
        shr_by(self.const_clone(), rhs as u32)
    }
}

impl<'lhs> ShrSpecImpl<u16> for &'lhs u206265 {
    open spec fn obeys_shr_spec() -> bool {
        true
    }

    open spec fn shr_req(self, rhs: u16) -> bool {
        0 <= rhs <= u32::MAX
    }

    open spec fn shr_spec(self, rhs: u16) -> u206265 {
        u206265::of_nat(shifted_right(self@, rhs as nat))
    }
}

impl<'lhs, 'rhs> core::ops::Shr<&'rhs u16> for &'lhs u206265 {
    type Output = u206265;

    fn shr(self, rhs: &'rhs u16) -> (r: u206265) {
        shr_by(self.const_clone(), *rhs as u32)
    }
}

impl<'lhs, 'rhs> ShrSpecImpl<&'rhs u16> for &'lhs u206265 {
    open spec fn obeys_shr_spec() -> bool {
        true
    }

    open spec fn shr_req(self, rhs: &'rhs u16) -> bool {
        0 <= *rhs <= u32::MAX
    }

    open spec fn shr_spec(self, rhs: &'rhs u16) -> u206265 {
        u206265::of_nat(shifted_right(self@, (*rhs) as nat))
    }
}

impl core::ops::ShrAssign<u32> for u206265 {
    fn shr_assign(&mut self, rhs: u32)
        requires
            0 <= rhs <= u32::MAX,
        ensures
            final(self)@ == shifted_right(old(self)@, rhs as nat),
    {
        const_shr_assign(self, rhs as u32);
    }
}

impl<'rhs> core::ops::ShrAssign<&'rhs u32> for u206265 {
    fn shr_assign(&mut self, rhs: &'rhs u32)
        requires
            0 <= *rhs <= u32::MAX,
        ensures
            final(self)@ == shifted_right(old(self)@, (*rhs) as nat),
    {
        const_shr_assign(self, *rhs as u32);
    }
}

impl core::ops::Shr<u32> for u206265 {
    type Output = u206265;

    fn shr(self, rhs: u32) -> (r: u206265) {
        shr_by(self, rhs as u32)
    }
}

impl ShrSpecImpl<u32> for u206265 {
    open spec fn obeys_shr_spec() -> bool {
        true
    }

    open spec fn shr_req(self, rhs: u32) -> bool {
        0 <= rhs <= u32::MAX
    }

    open spec fn shr_spec(self, rhs: u32) -> u206265 {
        u206265::of_nat(shifted_right(self@, rhs as nat))
    }
}

impl<'rhs> core::ops::Shr<&'rhs u32> for u206265 {
    type Output = u206265;

    fn shr(self, rhs: &'rhs u32) -> (r: u206265) {
        shr_by(self, *rhs as u32)
    }
}

impl<'rhs> ShrSpecImpl<&'rhs u32> for u206265 {
    open spec fn obeys_shr_spec() -> bool {
        true
    }

    open spec fn shr_req(self, rhs: &'rhs u32) -> bool {
        0 <= *rhs <= u32::MAX
    }

    open spec fn shr_spec(self, rhs: &'rhs u32) -> u206265 {
        u206265::of_nat(shifted_right(self@, (*rhs) as nat))
    }
}

impl<'lhs> core::ops::Shr<u32> for &'lhs u206265 {
    type Output = u206265;

    fn shr(self, rhs: u32) -> (r: u206265) {
        shr_by(self.const_clone(), rhs as u32)
    }
}

impl<'lhs> ShrSpecImpl<u32> for &'lhs u206265 {
    open spec fn obeys_shr_spec() -> bool {
        true
    }

    open spec fn shr_req(self, rhs: u32) -> bool {
        0 <= rhs <= u32::MAX
    }

    open spec fn shr_spec(self, rhs: u32) -> u206265 {
        u206265::of_nat(shifted_right(self@, rhs as nat))
    }
}

impl<'lhs, 'rhs> core::ops::Shr<&'rhs u32> for &'lhs u206265 {
    type Output = u206265;

    fn shr(self, rhs: &'rhs u32) -> (r: u206265) {
        shr_by(self.const_clone(), *rhs as u32)
    }
}

impl<'lhs, 'rhs> ShrSpecImpl<&'rhs u32> for &'lhs u206265 {
    open spec fn obeys_shr_spec() -> bool {
        true
    }

    open spec fn shr_req(self, rhs: &'rhs u32) -> bool {
        0 <= *rhs <= u32::MAX
    }

    open spec fn shr_spec(self, rhs: &'rhs u32) -> u206265 {
        u206265::of_nat(shifted_right(self@, (*rhs) as nat))
    }
}

impl core::ops::ShrAssign<u64> for u206265 {
    fn shr_assign(&mut self, rhs: u64)
        requires
            0 <= rhs <= u32::MAX,
        ensures
            final(self)@ == shifted_right(old(self)@, rhs as nat),
    {
        const_shr_assign(self, rhs as u32);
    }
}

impl<'rhs> core::ops::ShrAssign<&'rhs u64> for u206265 {
    fn shr_assign(&mut self, rhs: &'rhs u64)
        requires
            0 <= *rhs <= u32::MAX,
        ensures
            final(self)@ == shifted_right(old(self)@, (*rhs) as nat),
    {
        const_shr_assign(self, *rhs as u32);
    }
}

impl core::ops::Shr<u64> for u206265 {
    type Output = u206265;

    fn shr(self, rhs: u64) -> (r: u206265) {
        shr_by(self, rhs as u32)
    }
}

impl ShrSpecImpl<u64> for u206265 {
    open spec fn obeys_shr_spec() -> bool {
        true
    }

    open spec fn shr_req(self, rhs: u64) -> bool {
        0 <= rhs <= u32::MAX
    }

    open spec fn shr_spec(self, rhs: u64) -> u206265 {
        u206265::of_nat(shifted_right(self@, rhs as nat))
    }
}

impl<'rhs> core::ops::Shr<&'rhs u64> for u206265 {
    type Output = u206265;

    fn shr(self, rhs: &'rhs u64) -> (r: u206265) {
        shr_by(self, *rhs as u32)
    }
}

impl<'rhs> ShrSpecImpl<&'rhs u64> for u206265 {
    open spec fn obeys_shr_spec() -> bool {
        true
    }

    open spec fn shr_req(self, rhs: &'rhs u64) -> bool {
        0 <= *rhs <= u32::MAX
    }

    open spec fn shr_spec(self, rhs: &'rhs u64) -> u206265 {
        u206265::of_nat(shifted_right(self@, (*rhs) as nat))
    }
}

impl<'lhs> core::ops::Shr<u64> for &'lhs u206265 {
    type Output = u206265;

    fn shr(self, rhs: u64) -> (r: u206265) {
        shr_by(self.const_clone(), rhs as u32)
    }
}

impl<'lhs> ShrSpecImpl<u64> for &'lhs u206265 {
    open spec fn obeys_shr_spec() -> bool {
        true
    }

    open spec fn shr_req(self, rhs: u64) -> bool {
        0 <= rhs <= u32::MAX
    }

    open spec fn shr_spec(self, rhs: u64) -> u206265 {
        u206265::of_nat(shifted_right(self@, rhs as nat))
    }
}

impl<'lhs, 'rhs> core::ops::Shr<&'rhs u64> for &'lhs u206265 {
    type Output = u206265;

    fn shr(self, rhs: &'rhs u64) -> (r: u206265) {
        shr_by(self.const_clone(), *rhs as u32)
    }
}

impl<'lhs, 'rhs> ShrSpecImpl<&'rhs u64> for &'lhs u206265 {
    open spec fn obeys_shr_spec() -> bool {
        true
    }

    open spec fn shr_req(self, rhs: &'rhs u64) -> bool {
        0 <= *rhs <= u32::MAX
    }

    open spec fn shr_spec(self, rhs: &'rhs u64) -> u206265 {
        u206265::of_nat(shifted_right(self@, (*rhs) as nat))
    }
}

impl core::ops::ShrAssign<u128> for u206265 {
    fn shr_assign(&mut self, rhs: u128)
        requires
            0 <= rhs <= u32::MAX,
        ensures
            final(self)@ == shifted_right(old(self)@, rhs as nat),
    {
        const_shr_assign(self, rhs as u32);
    }
}

impl<'rhs> core::ops::ShrAssign<&'rhs u128> for u206265 {
    fn shr_assign(&mut self, rhs: &'rhs u128)
        requires
            0 <= *rhs <= u32::MAX,
        ensures
            final(self)@ == shifted_right(old(self)@, (*rhs) as nat),
    {
        const_shr_assign(self, *rhs as u32);
    }
}

impl core::ops::Shr<u128> for u206265 {
    type Output = u206265;

    fn shr(self, rhs: u128) -> (r: u206265) {
        shr_by(self, rhs as u32)
    }
}

impl ShrSpecImpl<u128> for u206265 {
    open spec fn obeys_shr_spec() -> bool {
        true
    }

    open spec fn shr_req(self, rhs: u128) -> bool {
        0 <= rhs <= u32::MAX
    }

    open spec fn shr_spec(self, rhs: u128) -> u206265 {
        u206265::of_nat(shifted_right(self@, rhs as nat))
    }
}

impl<'rhs> core::ops::Shr<&'rhs u128> for u206265 {
    type Output = u206265;

    fn shr(self, rhs: &'rhs u128) -> (r: u206265) {
        shr_by(self, *rhs as u32)
    }
}

impl<'rhs> ShrSpecImpl<&'rhs u128> for u206265 {
    open spec fn obeys_shr_spec() -> bool {
        true
    }

    open spec fn shr_req(self, rhs: &'rhs u128) -> bool {
        0 <= *rhs <= u32::MAX
    }

    open spec fn shr_spec(self, rhs: &'rhs u128) -> u206265 {
        u206265::of_nat(shifted_right(self@, (*rhs) as nat))
    }
}

impl<'lhs> core::ops::Shr<u128> for &'lhs u206265 {
    type Output = u206265;

    fn shr(self, rhs: u128) -> (r: u206265) {
        shr_by(self.const_clone(), rhs as u32)
    }
}

impl<'lhs> ShrSpecImpl<u128> for &'lhs u206265 {
    open spec fn obeys_shr_spec() -> bool {
        true
    }

    open spec fn shr_req(self, rhs: u128) -> bool {
        0 <= rhs <= u32::MAX
    }

    open spec fn shr_spec(self, rhs: u128) -> u206265 {
        u206265::of_nat(shifted_right(self@, rhs as nat))
    }
}

impl<'lhs, 'rhs> core::ops::Shr<&'rhs u128> for &'lhs u206265 {
    type Output = u206265;

    fn shr(self, rhs: &'rhs u128) -> (r: u206265) {
        shr_by(self.const_clone(), *rhs as u32)
    }
}

impl<'lhs, 'rhs> ShrSpecImpl<&'rhs u128> for &'lhs u206265 {
    open spec fn obeys_shr_spec() -> bool {
        true
    }

    open spec fn shr_req(self, rhs: &'rhs u128) -> bool {
        0 <= *rhs <= u32::MAX
    }

    open spec fn shr_spec(self, rhs: &'rhs u128) -> u206265 {
        u206265::of_nat(shifted_right(self@, (*rhs) as nat))
    }
}

impl core::ops::ShrAssign<usize> for u206265 {
    fn shr_assign(&mut self, rhs: usize)
        requires
            0 <= rhs <= u32::MAX,
        ensures
            final(self)@ == shifted_right(old(self)@, rhs as nat),
    {
        const_shr_assign(self, rhs as u32);
    }
}

impl<'rhs> core::ops::ShrAssign<&'rhs usize> for u206265 {
    fn shr_assign(&mut self, rhs: &'rhs usize)
        requires
            0 <= *rhs <= u32::MAX,
        ensures
            final(self)@ == shifted_right(old(self)@, (*rhs) as nat),
    {
        const_shr_assign(self, *rhs as u32);
    }
}

impl core::ops::Shr<usize> for u206265 {
    type Output = u206265;

    fn shr(self, rhs: usize) -> (r: u206265) {
        shr_by(self, rhs as u32)
    }
}

impl ShrSpecImpl<usize> for u206265 {
    open spec fn obeys_shr_spec() -> bool {
        true
    }

    open spec fn shr_req(self, rhs: usize) -> bool {
        0 <= rhs <= u32::MAX
    }

    open spec fn shr_spec(self, rhs: usize) -> u206265 {
        u206265::of_nat(shifted_right(self@, rhs as nat))
    }
}

impl<'rhs> core::ops::Shr<&'rhs usize> for u206265 {
    type Output = u206265;

    fn shr(self, rhs: &'rhs usize) -> (r: u206265) {
        shr_by(self, *rhs as u32)
    }
}

impl<'rhs> ShrSpecImpl<&'rhs usize> for u206265 {
    open spec fn obeys_shr_spec() -> bool {
        true
    }

    open spec fn shr_req(self, rhs: &'rhs usize) -> bool {
        0 <= *rhs <= u32::MAX
    }

    open spec fn shr_spec(self, rhs: &'rhs usize) -> u206265 {
        u206265::of_nat(shifted_right(self@, (*rhs) as nat))
    }
}

impl<'lhs> core::ops::Shr<usize> for &'lhs u206265 {
    type Output = u206265;

    fn shr(self, rhs: usize) -> (r: u206265) {
        shr_by(self.const_clone(), rhs as u32)
    }
}

impl<'lhs> ShrSpecImpl<usize> for &'lhs u206265 {
    open spec fn obeys_shr_spec() -> bool {
        true
    }

    open spec fn shr_req(self, rhs: usize) -> bool {
        0 <= rhs <= u32::MAX
    }

    open spec fn shr_spec(self, rhs: usize) -> u206265 {
        u206265::of_nat(shifted_right(self@, rhs as nat))
    }
}

impl<'lhs, 'rhs> core::ops::Shr<&'rhs usize> for &'lhs u206265 {
    type Output = u206265;

    fn shr(self, rhs: &'rhs usize) -> (r: u206265) {
        shr_by(self.const_clone(), *rhs as u32)
    }
}

impl<'lhs, 'rhs> ShrSpecImpl<&'rhs usize> for &'lhs u206265 {
    open spec fn obeys_shr_spec() -> bool {
        true
    }

    open spec fn shr_req(self, rhs: &'rhs usize) -> bool {
        0 <= *rhs <= u32::MAX
    }

    open spec fn shr_spec(self, rhs: &'rhs usize) -> u206265 {
        u206265::of_nat(shifted_right(self@, (*rhs) as nat))
    }
}

impl core::ops::ShrAssign<i8> for u206265 {
    fn shr_assign(&mut self, rhs: i8)
        requires
            0 <= rhs <= u32::MAX,
        ensures
            final(self)@ == shifted_right(old(self)@, rhs as nat),
    {
        const_shr_assign(self, rhs as u32);
    }
}

impl<'rhs> core::ops::ShrAssign<&'rhs i8> for u206265 {
    fn shr_assign(&mut self, rhs: &'rhs i8)
        requires
            0 <= *rhs <= u32::MAX,
        ensures
            final(self)@ == shifted_right(old(self)@, (*rhs) as nat),
    {
        const_shr_assign(self, *rhs as u32);
    }
}

impl core::ops::Shr<i8> for u206265 {
    type Output = u206265;

    fn shr(self, rhs: i8) -> (r: u206265) {
        shr_by(self, rhs as u32)
    }
}

impl ShrSpecImpl<i8> for u206265 {
    open spec fn obeys_shr_spec() -> bool {
        true
    }

    open spec fn shr_req(self, rhs: i8) -> bool {
        0 <= rhs <= u32::MAX
    }

    open spec fn shr_spec(self, rhs: i8) -> u206265 {
        u206265::of_nat(shifted_right(self@, rhs as nat))
    }
}

impl<'rhs> core::ops::Shr<&'rhs i8> for u206265 {
    type Output = u206265;

    fn shr(self, rhs: &'rhs i8) -> (r: u206265) {
        shr_by(self, *rhs as u32)
    }
}

impl<'rhs> ShrSpecImpl<&'rhs i8> for u206265 {
    open spec fn obeys_shr_spec() -> bool {
        true
    }

    open spec fn shr_req(self, rhs: &'rhs i8) -> bool {
        0 <= *rhs <= u32::MAX
    }

    open spec fn shr_spec(self, rhs: &'rhs i8) -> u206265 {
        u206265::of_nat(shifted_right(self@, (*rhs) as nat))
    }
}

impl<'lhs> core::ops::Shr<i8> for &'lhs u206265 {
    type Output = u206265;

    fn shr(self, rhs: i8) -> (r: u206265) {
        shr_by(self.const_clone(), rhs as u32)
    }
}

impl<'lhs> ShrSpecImpl<i8> for &'lhs u206265 {
    open spec fn obeys_shr_spec() -> bool {
        true
    }

    open spec fn shr_req(self, rhs: i8) -> bool {
        0 <= rhs <= u32::MAX
    }

    open spec fn shr_spec(self, rhs: i8) -> u206265 {
        u206265::of_nat(shifted_right(self@, rhs as nat))
    }
}

impl<'lhs, 'rhs> core::ops::Shr<&'rhs i8> for &'lhs u206265 {
    type Output = u206265;

    fn shr(self, rhs: &'rhs i8) -> (r: u206265) {
        shr_by(self.const_clone(), *rhs as u32)
    }
}

impl<'lhs, 'rhs> ShrSpecImpl<&'rhs i8> for &'lhs u206265 {
    open spec fn obeys_shr_spec() -> bool {
        true
    }

    open spec fn shr_req(self, rhs: &'rhs i8) -> bool {
        0 <= *rhs <= u32::MAX
    }

    open spec fn shr_spec(self, rhs: &'rhs i8) -> u206265 {
        u206265::of_nat(shifted_right(self@, (*rhs) as nat))
    }
}

impl core::ops::ShrAssign<i16> for u206265 {
    fn shr_assign(&mut self, rhs: i16)
        requires
            0 <= rhs <= u32::MAX,
        ensures
            final(self)@ == shifted_right(old(self)@, rhs as nat),
    {
        const_shr_assign(self, rhs as u32);
    }
}

impl<'rhs> core::ops::ShrAssign<&'rhs i16> for u206265 {
    fn shr_assign(&mut self, rhs: &'rhs i16)
        requires
            0 <= *rhs <= u32::MAX,
        ensures
            final(self)@ == shifted_right(old(self)@, (*rhs) as nat),
    {
        const_shr_assign(self, *rhs as u32);
    }
}

impl core::ops::Shr<i16> for u206265 {
    type Output = u206265;

    fn shr(self, rhs: i16) -> (r: u206265) {
        shr_by(self, rhs as u32)
    }
}

impl ShrSpecImpl<i16> for u206265 {
    open spec fn obeys_shr_spec() -> bool {
        true
    }

    open spec fn shr_req(self, rhs: i16) -> bool {
        0 <= rhs <= u32::MAX
    }

    open spec fn shr_spec(self, rhs: i16) -> u206265 {
        u206265::of_nat(shifted_right(self@, rhs as nat))
    }
}

impl<'rhs> core::ops::Shr<&'rhs i16> for u206265 {
    type Output = u206265;

    fn shr(self, rhs: &'rhs i16) -> (r: u206265) {
        shr_by(self, *rhs as u32)
    }
}

impl<'rhs> ShrSpecImpl<&'rhs i16> for u206265 {
    open spec fn obeys_shr_spec() -> bool {
        true
    }

    open spec fn shr_req(self, rhs: &'rhs i16) -> bool {
        0 <= *rhs <= u32::MAX
    }

    open spec fn shr_spec(self, rhs: &'rhs i16) -> u206265 {
        u206265::of_nat(shifted_right(self@, (*rhs) as nat))
    }
}

impl<'lhs> core::ops::Shr<i16> for &'lhs u206265 {
    type Output = u206265;

    fn shr(self, rhs: i16) -> (r: u206265) {
        shr_by(self.const_clone(), rhs as u32)
    }
}

impl<'lhs> ShrSpecImpl<i16> for &'lhs u206265 {
    open spec fn obeys_shr_spec() -> bool {
        true
    }

    open spec fn shr_req(self, rhs: i16) -> bool {
        0 <= rhs <= u32::MAX
    }

    open spec fn shr_spec(self, rhs: i16) -> u206265 {
        u206265::of_nat(shifted_right(self@, rhs as nat))
    }
}

impl<'lhs, 'rhs> core::ops::Shr<&'rhs i16> for &'lhs u206265 {
    type Output = u206265;

    fn shr(self, rhs: &'rhs i16) -> (r: u206265) {
        shr_by(self.const_clone(), *rhs as u32)
    }
}

impl<'lhs, 'rhs> ShrSpecImpl<&'rhs i16> for &'lhs u206265 {
    open spec fn obeys_shr_spec() -> bool {
        true
    }

    open spec fn shr_req(self, rhs: &'rhs i16) -> bool {
        0 <= *rhs <= u32::MAX
    }

    open spec fn shr_spec(self, rhs: &'rhs i16) -> u206265 {
        u206265::of_nat(shifted_right(self@, (*rhs) as nat))
    }
}

impl core::ops::ShrAssign<i32> for u206265 {
    fn shr_assign(&mut self, rhs: i32)
        requires
            0 <= rhs <= u32::MAX,
        ensures
            final(self)@ == shifted_right(old(self)@, rhs as nat),
    {
        const_shr_assign(self, rhs as u32);
    }
}

impl<'rhs> core::ops::ShrAssign<&'rhs i32> for u206265 {
    fn shr_assign(&mut self, rhs: &'rhs i32)
        requires
            0 <= *rhs <= u32::MAX,
        ensures
            final(self)@ == shifted_right(old(self)@, (*rhs) as nat),
    {
        const_shr_assign(self, *rhs as u32);
    }
}

impl core::ops::Shr<i32> for u206265 {
    type Output = u206265;

    fn shr(self, rhs: i32) -> (r: u206265) {
        shr_by(self, rhs as u32)
    }
}

impl ShrSpecImpl<i32> for u206265 {
    open spec fn obeys_shr_spec() -> bool {
        true
    }

    open spec fn shr_req(self, rhs: i32) -> bool {
        0 <= rhs <= u32::MAX
    }

    open spec fn shr_spec(self, rhs: i32) -> u206265 {
        u206265::of_nat(shifted_right(self@, rhs as nat))
    }
}

impl<'rhs> core::ops::Shr<&'rhs i32> for u206265 {
    type Output = u206265;

    fn shr(self, rhs: &'rhs i32) -> (r: u206265) {
        shr_by(self, *rhs as u32)
    }
}

impl<'rhs> ShrSpecImpl<&'rhs i32> for u206265 {
    open spec fn obeys_shr_spec() -> bool {
        true
    }

    open spec fn shr_req(self, rhs: &'rhs i32) -> bool {
        0 <= *rhs <= u32::MAX
    }

    open spec fn shr_spec(self, rhs: &'rhs i32) -> u206265 {
        u206265::of_nat(shifted_right(self@, (*rhs) as nat))
    }
}

impl<'lhs> core::ops::Shr<i32> for &'lhs u206265 {
    type Output = u206265;

    fn shr(self, rhs: i32) -> (r: u206265) {
        shr_by(self.const_clone(), rhs as u32)
    }
}

impl<'lhs> ShrSpecImpl<i32> for &'lhs u206265 {
    open spec fn obeys_shr_spec() -> bool {
        true
    }

    open spec fn shr_req(self, rhs: i32) -> bool {
        0 <= rhs <= u32::MAX
    }

    open spec fn shr_spec(self, rhs: i32) -> u206265 {
        u206265::of_nat(shifted_right(self@, rhs as nat))
    }
}

impl<'lhs, 'rhs> core::ops::Shr<&'rhs i32> for &'lhs u206265 {
    type Output = u206265;

    fn shr(self, rhs: &'rhs i32) -> (r: u206265) {
        shr_by(self.const_clone(), *rhs as u32)
    }
}

impl<'lhs, 'rhs> ShrSpecImpl<&'rhs i32> for &'lhs u206265 {
    open spec fn obeys_shr_spec() -> bool {
        true
    }

    open spec fn shr_req(self, rhs: &'rhs i32) -> bool {
        0 <= *rhs <= u32::MAX
    }

    open spec fn shr_spec(self, rhs: &'rhs i32) -> u206265 {
        u206265::of_nat(shifted_right(self@, (*rhs) as nat))
    }
}

impl core::ops::ShrAssign<i64> for u206265 {
    fn shr_assign(&mut self, rhs: i64)
        requires
            0 <= rhs <= u32::MAX,
        ensures
            final(self)@ == shifted_right(old(self)@, rhs as nat),
    {
        const_shr_assign(self, rhs as u32);
    }
}

impl<'rhs> core::ops::ShrAssign<&'rhs i64> for u206265 {
    fn shr_assign(&mut self, rhs: &'rhs i64)
        requires
            0 <= *rhs <= u32::MAX,
        ensures
            final(self)@ == shifted_right(old(self)@, (*rhs) as nat),
    {
        const_shr_assign(self, *rhs as u32);
    }
}

impl core::ops::Shr<i64> for u206265 {
    type Output = u206265;

    fn shr(self, rhs: i64) -> (r: u206265) {
        shr_by(self, rhs as u32)
    }
}

impl ShrSpecImpl<i64> for u206265 {
    open spec fn obeys_shr_spec() -> bool {
        true
    }

    open spec fn shr_req(self, rhs: i64) -> bool {
        0 <= rhs <= u32::MAX
    }

    open spec fn shr_spec(self, rhs: i64) -> u206265 {
        u206265::of_nat(shifted_right(self@, rhs as nat))
    }
}

impl<'rhs> core::ops::Shr<&'rhs i64> for u206265 {
    type Output = u206265;

    fn shr(self, rhs: &'rhs i64) -> (r: u206265) {
        shr_by(self, *rhs as u32)
    }
}

impl<'rhs> ShrSpecImpl<&'rhs i64> for u206265 {
    open spec fn obeys_shr_spec() -> bool {
        true
    }

    open spec fn shr_req(self, rhs: &'rhs i64) -> bool {
        0 <= *rhs <= u32::MAX
    }

    open spec fn shr_spec(self, rhs: &'rhs i64) -> u206265 {
        u206265::of_nat(shifted_right(self@, (*rhs) as nat))
    }
}

impl<'lhs> core::ops::Shr<i64> for &'lhs u206265 {
    type Output = u206265;

    fn shr(self, rhs: i64) -> (r: u206265) {
        shr_by(self.const_clone(), rhs as u32)
    }
}

impl<'lhs> ShrSpecImpl<i64> for &'lhs u206265 {
    open spec fn obeys_shr_spec() -> bool {
        true
    }

    open spec fn shr_req(self, rhs: i64) -> bool {
        0 <= rhs <= u32::MAX
    }

    open spec fn shr_spec(self, rhs: i64) -> u206265 {
        u206265::of_nat(shifted_right(self@, rhs as nat))
    }
}

impl<'lhs, 'rhs> core::ops::Shr<&'rhs i64> for &'lhs u206265 {
    type Output = u206265;

    fn shr(self, rhs: &'rhs i64) -> (r: u206265) {
        shr_by(self.const_clone(), *rhs as u32)
    }
}

impl<'lhs, 'rhs> ShrSpecImpl<&'rhs i64> for &'lhs u206265 {
    open spec fn obeys_shr_spec() -> bool {
        true
    }

    open spec fn shr_req(self, rhs: &'rhs i64) -> bool {
        0 <= *rhs <= u32::MAX
    }

    open spec fn shr_spec(self, rhs: &'rhs i64) -> u206265 {
        u206265::of_nat(shifted_right(self@, (*rhs) as nat))
    }
}

impl core::ops::ShrAssign<i128> for u206265 {
    fn shr_assign(&mut self, rhs: i128)
        requires
            0 <= rhs <= u32::MAX,
        ensures
            final(self)@ == shifted_right(old(self)@, rhs as nat),
    {
        const_shr_assign(self, rhs as u32);
    }
}

impl<'rhs> core::ops::ShrAssign<&'rhs i128> for u206265 {
    fn shr_assign(&mut self, rhs: &'rhs i128)
        requires
            0 <= *rhs <= u32::MAX,
        ensures
            final(self)@ == shifted_right(old(self)@, (*rhs) as nat),
    {
        const_shr_assign(self, *rhs as u32);
    }
}

impl core::ops::Shr<i128> for u206265 {
    type Output = u206265;

    fn shr(self, rhs: i128) -> (r: u206265) {
        shr_by(self, rhs as u32)
    }
}

impl ShrSpecImpl<i128> for u206265 {
    open spec fn obeys_shr_spec() -> bool {
        true
    }

    open spec fn shr_req(self, rhs: i128) -> bool {
        0 <= rhs <= u32::MAX
    }

    open spec fn shr_spec(self, rhs: i128) -> u206265 {
        u206265::of_nat(shifted_right(self@, rhs as nat))
    }
}

impl<'rhs> core::ops::Shr<&'rhs i128> for u206265 {
    type Output = u206265;

    fn shr(self, rhs: &'rhs i128) -> (r: u206265) {
        shr_by(self, *rhs as u32)
    }
}

impl<'rhs> ShrSpecImpl<&'rhs i128> for u206265 {
    open spec fn obeys_shr_spec() -> bool {
        true
    }

    open spec fn shr_req(self, rhs: &'rhs i128) -> bool {
        0 <= *rhs <= u32::MAX
    }

    open spec fn shr_spec(self, rhs: &'rhs i128) -> u206265 {
        u206265::of_nat(shifted_right(self@, (*rhs) as nat))
    }
}

impl<'lhs> core::ops::Shr<i128> for &'lhs u206265 {
    type Output = u206265;

    fn shr(self, rhs: i128) -> (r: u206265) {
        shr_by(self.const_clone(), rhs as u32)
    }
}

impl<'lhs> ShrSpecImpl<i128> for &'lhs u206265 {
    open spec fn obeys_shr_spec() -> bool {
        true
    }

    open spec fn shr_req(self, rhs: i128) -> bool {
        0 <= rhs <= u32::MAX
    }

    open spec fn shr_spec(self, rhs: i128) -> u206265 {
        u206265::of_nat(shifted_right(self@, rhs as nat))
    }
}

impl<'lhs, 'rhs> core::ops::Shr<&'rhs i128> for &'lhs u206265 {
    type Output = u206265;

    fn shr(self, rhs: &'rhs i128) -> (r: u206265) {
        shr_by(self.const_clone(), *rhs as u32)
    }
}

impl<'lhs, 'rhs> ShrSpecImpl<&'rhs i128> for &'lhs u206265 {
    open spec fn obeys_shr_spec() -> bool {
        true
    }

    open spec fn shr_req(self, rhs: &'rhs i128) -> bool {
        0 <= *rhs <= u32::MAX
    }

    open spec fn shr_spec(self, rhs: &'rhs i128) -> u206265 {
        u206265::of_nat(shifted_right(self@, (*rhs) as nat))
    }
}

impl core::ops::ShrAssign<isize> for u206265 {
    fn shr_assign(&mut self, rhs: isize)
        requires
            0 <= rhs <= u32::MAX,
        ensures
            final(self)@ == shifted_right(old(self)@, rhs as nat),
    {
        const_shr_assign(self, rhs as u32);
    }
}

impl<'rhs> core::ops::ShrAssign<&'rhs isize> for u206265 {
    fn shr_assign(&mut self, rhs: &'rhs isize)
        requires
            0 <= *rhs <= u32::MAX,
        ensures
            final(self)@ == shifted_right(old(self)@, (*rhs) as nat),
    {
        const_shr_assign(self, *rhs as u32);
    }
}

impl core::ops::Shr<isize> for u206265 {
    type Output = u206265;

    fn shr(self, rhs: isize) -> (r: u206265) {
        shr_by(self, rhs as u32)
    }
}

impl ShrSpecImpl<isize> for u206265 {
    open spec fn obeys_shr_spec() -> bool {
        true
    }

    open spec fn shr_req(self, rhs: isize) -> bool {
        0 <= rhs <= u32::MAX
    }

    open spec fn shr_spec(self, rhs: isize) -> u206265 {
        u206265::of_nat(shifted_right(self@, rhs as nat))
    }
}

impl<'rhs> core::ops::Shr<&'rhs isize> for u206265 {
    type Output = u206265;

    fn shr(self, rhs: &'rhs isize) -> (r: u206265) {
        shr_by(self, *rhs as u32)
    }
}

impl<'rhs> ShrSpecImpl<&'rhs isize> for u206265 {
    open spec fn obeys_shr_spec() -> bool {
        true
    }

    open spec fn shr_req(self, rhs: &'rhs isize) -> bool {
        0 <= *rhs <= u32::MAX
    }

    open spec fn shr_spec(self, rhs: &'rhs isize) -> u206265 {
        u206265::of_nat(shifted_right(self@, (*rhs) as nat))
    }
}

impl<'lhs> core::ops::Shr<isize> for &'lhs u206265 {
    type Output = u206265;

    fn shr(self, rhs: isize) -> (r: u206265) {
        shr_by(self.const_clone(), rhs as u32)
    }
}

impl<'lhs> ShrSpecImpl<isize> for &'lhs u206265 {
    open spec fn obeys_shr_spec() -> bool {
        true
    }

    open spec fn shr_req(self, rhs: isize) -> bool {
        0 <= rhs <= u32::MAX
    }

    open spec fn shr_spec(self, rhs: isize) -> u206265 {
        u206265::of_nat(shifted_right(self@, rhs as nat))
    }
}

impl<'lhs, 'rhs> core::ops::Shr<&'rhs isize> for &'lhs u206265 {
    type Output = u206265;

    fn shr(self, rhs: &'rhs isize) -> (r: u206265) {
        shr_by(self.const_clone(), *rhs as u32)
    }
}

impl<'lhs, 'rhs> ShrSpecImpl<&'rhs isize> for &'lhs u206265 {
    open spec fn obeys_shr_spec() -> bool {
        true
    }

    open spec fn shr_req(self, rhs: &'rhs isize) -> bool {
        0 <= *rhs <= u32::MAX
    }

    open spec fn shr_spec(self, rhs: &'rhs isize) -> u206265 {
        u206265::of_nat(shifted_right(self@, (*rhs) as nat))
    }
}

impl core::ops::ShrAssign<u206265> for u206265 {
    fn shr_assign(&mut self, rhs: u206265)
        requires
            rhs@ <= u32::MAX,
        ensures
            final(self)@ == shifted_right(old(self)@, rhs@),
    {
        const_shr_assign(self, amount_of(&rhs));
    }
}

impl<'rhs> core::ops::ShrAssign<&'rhs u206265> for u206265 {
    fn shr_assign(&mut self, rhs: &'rhs u206265)
        requires
            rhs@ <= u32::MAX,
        ensures
            final(self)@ == shifted_right(old(self)@, rhs@),
    {
        const_shr_assign(self, amount_of(rhs));
    }
}

impl core::ops::Shr<u206265> for u206265 {
    type Output = u206265;

    fn shr(self, rhs: u206265) -> (r: u206265) {
        shr_by(self, amount_of(&rhs))
    }
}

impl ShrSpecImpl<u206265> for u206265 {
    open spec fn obeys_shr_spec() -> bool {
        true
    }

    open spec fn shr_req(self, rhs: u206265) -> bool {
        rhs@ <= u32::MAX
    }

    open spec fn shr_spec(self, rhs: u206265) -> u206265 {
        u206265::of_nat(shifted_right(self@, rhs@))
    }
}

impl<'rhs> core::ops::Shr<&'rhs u206265> for u206265 {
    type Output = u206265;

    fn shr(self, rhs: &'rhs u206265) -> (r: u206265) {
        shr_by(self, amount_of(rhs))
    }
}

impl<'rhs> ShrSpecImpl<&'rhs u206265> for u206265 {
    open spec fn obeys_shr_spec() -> bool {
        true
    }

    open spec fn shr_req(self, rhs: &'rhs u206265) -> bool {
        rhs@ <= u32::MAX
    }

    open spec fn shr_spec(self, rhs: &'rhs u206265) -> u206265 {
        u206265::of_nat(shifted_right(self@, rhs@))
    }
}

impl<'lhs> core::ops::Shr<u206265> for &'lhs u206265 {
    type Output = u206265;

    fn shr(self, rhs: u206265) -> (r: u206265) {
        shr_by(self.const_clone(), amount_of(&rhs))
    }
}

impl<'lhs> ShrSpecImpl<u206265> for &'lhs u206265 {
    open spec fn obeys_shr_spec() -> bool {
        true
    }

    open spec fn shr_req(self, rhs: u206265) -> bool {
        rhs@ <= u32::MAX
    }

    open spec fn shr_spec(self, rhs: u206265) -> u206265 {
        u206265::of_nat(shifted_right(self@, rhs@))
    }
}

impl<'lhs, 'rhs> core::ops::Shr<&'rhs u206265> for &'lhs u206265 {
    type Output = u206265;

    fn shr(self, rhs: &'rhs u206265) -> (r: u206265) {
        shr_by(self.const_clone(), amount_of(rhs))
    }
}

impl<'lhs, 'rhs> ShrSpecImpl<&'rhs u206265> for &'lhs u206265 {
    open spec fn obeys_shr_spec() -> bool {
        true
    }

    open spec fn shr_req(self, rhs: &'rhs u206265) -> bool {
        rhs@ <= u32::MAX
    }

    open spec fn shr_spec(self, rhs: &'rhs u206265) -> u206265 {
        u206265::of_nat(shifted_right(self@, rhs@))
    }
}

} // verus!
