use core::ops::Shl;
use not_too_many_arcseconds::{const_shl, const_shl_assign, u206265, u206265ToUnsigned};
use quickcheck::QuickCheck;

const MAX_LHS: u128 = u128::MAX >> 30;

fn shl_matches(lhs: u128, rhs: u32) -> bool {
    let lhs: u128 = lhs % (MAX_LHS + 1);
    let rhs: u32 = rhs % 33;
    let shift = lhs.shl(rhs);
    let the_lhs = u206265::from(lhs);
    let (the_shift, the_ov) = const_shl(&the_lhs, rhs);
    let shift2 = u128::try_from(the_shift);
    assert!(!the_ov, "Shifting by 128 bits cannot result in u206265 overflow");
    shift2 == Ok(shift) || shift2 == Err(u206265ToUnsigned { bytes_required: 17 })
}

#[test]
fn shl() {
    QuickCheck::new().tests(50).quickcheck(shl_matches as fn(u128, u32) -> bool);
}

#[test]
fn special_shl_2_305_843_009_213_693_952_by_67() {
    let lhs: u128 = 2_305_843_009_213_693_952;
    let rhs: u32 = 67;
    let shift = lhs.shl(rhs);
    let the_lhs = u206265::from(lhs);
    let (the_shift, the_ov) = const_shl(&the_lhs, rhs);
    let shift2 = u128::try_from(the_shift);
    assert!(!the_ov, "Shifting by 128 bits cannot result in u206265 overflow");
    assert!(shift2 == Ok(shift) || shift2 == Err(u206265ToUnsigned { bytes_required: 17 }))
}

#[test]
fn shl_exact_values() {
    let value = u206265::from_u32(0x00_AB_CD_EF);
    assert_eq!(const_shl(&value, 0).0, value);
    assert_eq!(const_shl(&value, 4).0.try_into_u32(), Ok(0x0A_BC_DE_F0));
    assert_eq!(const_shl(&value, 8).0.try_into_u32(), Ok(0xAB_CD_EF_00));
    assert_eq!(const_shl(&value, 13).0.try_into_u64(), Ok(0x00_AB_CD_EFu64 << 13));
    assert_eq!(
        const_shl(&u206265::from_u128(u128::MAX), 1).0.format_lower_hex(),
        "1fffffffffffffffffffffffffffffffe"
    );
}

#[test]
fn shl_drops_what_leaves_at_the_top() {
    let max = u206265::max_value();
    let (shifted, overflow) = const_shl(&max, 1);
    assert!(!overflow);
    let (expected, underflow) = not_too_many_arcseconds::const_sub(&max, &u206265::one());
    assert!(!underflow);
    assert_eq!(shifted, expected);
    assert_eq!(shifted.significant_bytes_slice()[25_783], 1);
    let (top, overflow) = const_shl(&u206265::one(), 206_264);
    assert!(!overflow);
    assert_eq!(top.significant_bytes(), 25_784);
    assert_eq!(top.significant_bytes_slice()[25_783], 1);
    let (gone, overflow) = const_shl(&top, 1);
    assert!(!overflow);
    assert_eq!(gone, u206265::zero());
    let (high, _) = const_shl(&u206265::from_u8(0xFF), 206_260);
    assert_eq!(high.significant_bytes_slice()[25_783], 1);
    assert_eq!(high.significant_bytes_slice()[25_782], 0xF0);
}

#[test]
fn shl_reduces_a_large_amount_and_tells_so() {
    let value = u206265::from_u8(1);
    let (shifted, overflow) = const_shl(&value, 206_265);
    assert!(overflow);
    assert_eq!(shifted, value);
    let (shifted, overflow) = const_shl(&value, 206_265 + 4);
    assert!(overflow);
    assert_eq!(shifted.try_into_u8(), Ok(16));
    let (shifted, overflow) = const_shl(&value, u32::MAX);
    assert!(overflow);
    // u32::MAX % 206265 = 117465
    assert_eq!(shifted, const_shl(&value, 117_465).0);
}

#[test]
fn shl_in_place_agrees() {
    let mut value = u206265::from_u8(0x0F);
    let overflow = const_shl_assign(&mut value, 12);
    assert!(!overflow);
    assert_eq!(value.try_into_u16(), Ok(0xF000));
}
