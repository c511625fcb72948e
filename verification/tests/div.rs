use not_too_many_arcseconds::{
    const_div, const_div_assign, const_div_rem, const_rem, const_rem_assign, const_shr, u206265,
};
use quickcheck::QuickCheck;

fn div_rem_matches(lhs: u128, rhs: u128) -> bool {
    let div = lhs.checked_div(rhs);
    let rem = lhs.checked_rem(rhs);
    let the_lhs = u206265::from(lhs);
    let the_rhs = u206265::from(rhs);
    let the_result = const_div_rem(&the_lhs, &the_rhs);
    let (div, rem, the_div, the_rem) = match (div, rem, the_result) {
        (None, None, None) => return true,
        (Some(div), Some(rem), Some((the_div, the_rem))) => (div, rem, the_div, the_rem),
        _ => unreachable!("Option variants must be the same!"),
    };
    let div2 = u128::try_from(the_div).unwrap();
    let rem2 = u128::try_from(the_rem).unwrap();
    (div == div2) && (rem == rem2)
}

#[test]
fn div_rem() {
    QuickCheck::new().tests(15).quickcheck(div_rem_matches as fn(u128, u128) -> bool);
}

#[test]
fn division_by_zero_is_nothing() {
    assert!(const_div_rem(&u206265::from_u8(7), &u206265::zero()).is_none());
    assert!(const_div_rem(&u206265::zero(), &u206265::zero()).is_none());
    assert!(const_div(&u206265::max_value(), &u206265::zero()).is_none());
    assert!(const_rem(&u206265::one(), &u206265::zero()).is_none());
}

#[test]
fn division_exact_values() {
    let (quotient, remainder) =
        const_div_rem(&u206265::from_u16(1000), &u206265::from_u8(7)).unwrap();
    assert_eq!(quotient.try_into_u8(), Ok(142));
    assert_eq!(remainder.try_into_u8(), Ok(6));
    let (quotient, remainder) =
        const_div_rem(&u206265::from_u8(7), &u206265::from_u16(1000)).unwrap();
    assert_eq!(quotient, u206265::zero());
    assert_eq!(remainder.try_into_u8(), Ok(7));
    let (quotient, remainder) =
        const_div_rem(&u206265::from_u128(u128::MAX), &u206265::from_u128(u128::MAX)).unwrap();
    assert_eq!(quotient, u206265::one());
    assert_eq!(remainder, u206265::zero());
    let (quotient, remainder) = const_div_rem(&u206265::zero(), &u206265::from_u8(3)).unwrap();
    assert_eq!(quotient, u206265::zero());
    assert_eq!(remainder, u206265::zero());
}

#[test]
fn division_of_the_maximum_by_itself() {
    let max = u206265::max_value();
    let (quotient, remainder) = const_div_rem(&max, &max).unwrap();
    assert_eq!(quotient, u206265::one());
    assert_eq!(remainder, u206265::zero());
}

#[test]
fn division_of_the_maximum_by_a_divisor_near_the_top() {
    // (2^206265 - 1) / (2^206257 - 1) = 256, remainder 255
    let max = u206265::max_value();
    let (divisor, _) = const_shr(&max, 8);
    let (quotient, remainder) = const_div_rem(&max, &divisor).unwrap();
    assert_eq!(quotient.try_into_u16(), Ok(256));
    assert_eq!(remainder.try_into_u16(), Ok(255));
}

#[test]
fn quotient_and_remainder_make_up_the_dividend() {
    let lhs = u206265::from_u128(0xFEDC_BA98_7654_3210_0123_4567_89AB_CDEF);
    let rhs = u206265::from_u64(0x1_0000_0001);
    let (quotient, remainder) = const_div_rem(&lhs, &rhs).unwrap();
    assert!(remainder < rhs);
    let (product, overflow) = not_too_many_arcseconds::const_mul(&rhs, &quotient);
    assert!(!overflow);
    let (sum, overflow) = not_too_many_arcseconds::const_add(&product, &remainder);
    assert!(!overflow);
    assert_eq!(sum, lhs);
}

#[test]
fn division_in_place_agrees() {
    let mut value = u206265::from_u16(1000);
    const_div_assign(&mut value, &u206265::from_u8(10));
    assert_eq!(value.try_into_u8(), Ok(100));
    const_rem_assign(&mut value, &u206265::from_u8(7));
    assert_eq!(value.try_into_u8(), Ok(2));
    assert_eq!(
        const_div(&u206265::from_u8(9), &u206265::from_u8(2)).unwrap().try_into_u8(),
        Ok(4)
    );
    assert_eq!(
        const_rem(&u206265::from_u8(9), &u206265::from_u8(2)).unwrap().try_into_u8(),
        Ok(1)
    );
}
