use core::ops::Shr;
use not_too_many_arcseconds::{const_shl, const_shr, const_shr_assign, u206265};
use quickcheck::QuickCheck;

fn shr_matches(lhs: u128, rhs: u32) -> bool {
    let rhs: u32 = rhs % 128;
    let shift = lhs.shr(rhs);
    let the_lhs = u206265::from(lhs);
    let (the_shift, the_ov) = const_shr(&the_lhs, rhs);
    let shift2 = u128::try_from(the_shift);
    assert!(!the_ov, "Shifting by 128 bits cannot result in u206265 overflow");
    shift2 == Ok(shift)
}

#[test]
fn shr() {
    QuickCheck::new().tests(50).quickcheck(shr_matches as fn(u128, u32) -> bool);
}

#[test]
fn special_shr_1_by_1() {
    let lhs: u128 = 1;
    let rhs: u32 = 1;
    let shift = lhs.shr(rhs);
    let the_lhs = u206265::from(lhs);
    let (the_shift, the_ov) = const_shr(&the_lhs, rhs);
    let shift2 = u128::try_from(the_shift);
    assert!(!the_ov, "Shifting by 128 bits cannot result in u206265 overflow");
    assert_eq!(shift2, Ok(shift));
}

#[test]
fn special_shr_0_by_127() {
    let lhs: u128 = 0;
    let rhs: u32 = 127;
    let shift = lhs.shr(rhs);
    let the_lhs = u206265::from(lhs);
    let (the_shift, the_ov) = const_shr(&the_lhs, rhs);
    let shift2 = u128::try_from(the_shift);
    assert!(!the_ov, "Shifting by 128 bits cannot result in u206265 overflow");
    assert_eq!(shift2, Ok(shift));
}

#[test]
fn shr_exact_values() {
    let value = u206265::from_u32(0xAB_CD_EF_01);
    assert_eq!(const_shr(&value, 0).0, value);
    assert_eq!(const_shr(&value, 4).0.try_into_u32(), Ok(0x0A_BC_DE_F0));
    assert_eq!(const_shr(&value, 8).0.try_into_u32(), Ok(0xAB_CD_EF));
    assert_eq!(const_shr(&value, 13).0.try_into_u32(), Ok(0xAB_CD_EF_01 >> 13));
    assert_eq!(const_shr(&value, 32).0, u206265::zero());
}

#[test]
fn shr_of_the_maximum() {
    let max = u206265::max_value();
    let (shifted, overflow) = const_shr(&max, 206_264);
    assert!(!overflow);
    assert_eq!(shifted, u206265::one());
    let (shifted, overflow) = const_shr(&max, 206_137);
    assert!(!overflow);
    assert_eq!(shifted.try_into_u128(), Ok(u128::MAX));
}

#[test]
fn shr_reduces_a_large_amount_and_tells_so() {
    let value = u206265::from_u8(0b1000);
    let (shifted, overflow) = const_shr(&value, 206_265);
    assert!(overflow);
    assert_eq!(shifted, value);
    let (shifted, overflow) = const_shr(&value, 206_265 + 3);
    assert!(overflow);
    assert_eq!(shifted, u206265::one());
    let (shifted, overflow) = const_shr(&value, 206_264);
    assert!(!overflow);
    assert_eq!(shifted, u206265::zero());
}

#[test]
fn shl_then_shr_keeps_the_low_bits() {
    let value = u206265::max_value();
    for amount in [0u32, 1, 7, 8, 9, 64, 206_137, 206_264] {
        let (up, overflow) = const_shl(&value, amount);
        assert!(!overflow);
        let (back, overflow) = const_shr(&up, amount);
        assert!(!overflow);
        // the low (206265 - amount) bits of the maximum: the maximum shifted right
        let (expected, _) = const_shr(&value, amount);
        assert_eq!(back, expected);
    }
    let small = u206265::from_u64(0x0123_4567_89AB_CDEF);
    for amount in [0u32, 3, 8, 100, 206_200] {
        let (up, _) = const_shl(&small, amount);
        let (back, _) = const_shr(&up, amount);
        assert_eq!(back, small);
    }
}

#[test]
fn shr_in_place_agrees() {
    let mut value = u206265::from_u16(0x0F00);
    let overflow = const_shr_assign(&mut value, 4);
    assert!(!overflow);
    assert_eq!(value.try_into_u16(), Ok(0x00F0));
}
