use not_too_many_arcseconds::{const_sub, const_sub_assign, u206265, u206265ToUnsigned, BYTES};
use quickcheck::QuickCheck;

fn sub_matches(lhs: u128, rhs: u128) -> bool {
    let (sub, ov) = lhs.overflowing_sub(rhs);
    let the_lhs = u206265::from(lhs);
    let the_rhs = u206265::from(rhs);
    let (the_sub, the_ov) = const_sub(&the_lhs, &the_rhs);
    assert_eq!(ov, the_ov, "Overflow flags should be the same");
    assert_eq!(ov, rhs > lhs, "Overflow MUST occur, if rhs is greater than lhs");
    let sub2 = u128::try_from(the_sub);
    if ov {
        sub2 == Err(u206265ToUnsigned { bytes_required: BYTES })
    } else {
        sub2 == Ok(sub)
    }
}

#[test]
fn sub() {
    QuickCheck::new().tests(100).quickcheck(sub_matches as fn(u128, u128) -> bool);
}

#[test]
fn sub_of_itself_is_zero() {
    for value in [u206265::zero(), u206265::from_u128(u128::MAX), u206265::max_value()] {
        let (difference, underflow) = const_sub(&value, &value);
        assert!(!underflow);
        assert_eq!(difference, u206265::zero());
    }
}

#[test]
fn sub_borrows_across_bytes() {
    let (difference, underflow) = const_sub(&u206265::from_u16(0x0100), &u206265::one());
    assert!(!underflow);
    assert_eq!(difference.try_into_u16(), Ok(0x00FF));
}

#[test]
fn sub_below_zero_wraps_to_the_top() {
    let (difference, underflow) = const_sub(&u206265::zero(), &u206265::one());
    assert!(underflow);
    assert_eq!(difference, u206265::max_value());
    let (difference, underflow) = const_sub(&u206265::one(), &u206265::max_value());
    assert!(underflow);
    assert_eq!(difference.try_into_u8(), Ok(2));
}

#[test]
fn sub_in_place_agrees() {
    let mut value = u206265::from_u16(300);
    let underflow = const_sub_assign(&mut value, &u206265::from_u8(45));
    assert!(!underflow);
    assert_eq!(value.try_into_u8(), Ok(255));
}
