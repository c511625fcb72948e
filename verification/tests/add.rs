use not_too_many_arcseconds::{const_add, const_add_assign, u206265, u206265ToUnsigned};
use quickcheck::QuickCheck;

fn add_matches(lhs: u128, rhs: u128) -> bool {
    let (sum, ov) = lhs.overflowing_add(rhs);
    let the_lhs = u206265::from(lhs);
    let the_rhs = u206265::from(rhs);
    let (the_sum, the_ov) = const_add(&the_lhs, &the_rhs);
    let sum2 = u128::try_from(the_sum.const_clone());
    assert!(!the_ov, "Adding two u128 cannot result in overflow");
    if ov {
        sum2 == Err(u206265ToUnsigned { bytes_required: 128 / 8 + 1 })
    } else {
        sum2 == Ok(sum)
    }
}

#[test]
fn add() {
    QuickCheck::new().tests(100).quickcheck(add_matches as fn(u128, u128) -> bool);
}

#[test]
fn special_add_0_add_0() {
    let lhs: u128 = 0;
    let rhs: u128 = 0;
    let (sum, ov) = lhs.overflowing_add(rhs);
    let the_lhs = u206265::from(lhs);
    let the_rhs = u206265::from(rhs);
    let (the_sum, the_ov) = const_add(&the_lhs, &the_rhs);
    let sum2 = u128::try_from(the_sum.const_clone());
    assert!(!the_ov, "Adding two u128 cannot result in overflow");
    if ov {
        assert_eq!(sum2, Err(u206265ToUnsigned { bytes_required: 128 / 8 + 1 }));
    } else {
        assert_eq!(sum2, Ok(sum));
    }
}

#[test]
fn add_carries_across_bytes() {
    let (sum, overflow) = const_add(&u206265::from_u16(0x00FF), &u206265::from_u8(1));
    assert!(!overflow);
    assert_eq!(sum.try_into_u16(), Ok(0x0100));
    assert_eq!(sum.significant_bytes(), 2);
}

#[test]
fn add_of_native_maxima_needs_seventeen_bytes() {
    let max = u206265::from_u128(u128::MAX);
    let (sum, overflow) = const_add(&max, &max);
    assert!(!overflow);
    assert_eq!(sum.try_into_u128(), Err(u206265ToUnsigned { bytes_required: 17 }));
    assert_eq!(sum.format_lower_hex(), "1fffffffffffffffffffffffffffffffe");
}

#[test]
fn add_overflows_at_the_maximum() {
    let (sum, overflow) = const_add(&u206265::max_value(), &u206265::one());
    assert!(overflow);
    assert_eq!(sum, u206265::zero());
    let (sum, overflow) = const_add(&u206265::max_value(), &u206265::max_value());
    assert!(overflow);
    let (expected, underflow) =
        not_too_many_arcseconds::const_sub(&u206265::max_value(), &u206265::one());
    assert!(!underflow);
    assert_eq!(sum, expected);
    let (sum, overflow) = const_add(&u206265::max_value(), &u206265::zero());
    assert!(!overflow);
    assert_eq!(sum, u206265::max_value());
}

#[test]
fn add_is_commutative_and_associative() {
    let a = u206265::from_u128(u128::MAX);
    let b = u206265::from_u64(0x1234_5678_9ABC_DEF0);
    let c = u206265::max_value();
    assert_eq!(const_add(&a, &b), const_add(&b, &a));
    assert_eq!(const_add(&a, &c), const_add(&c, &a));
    let left = const_add(&const_add(&a, &b).0, &c).0;
    let right = const_add(&a, &const_add(&b, &c).0).0;
    assert_eq!(left, right);
}

#[test]
fn add_in_place_agrees() {
    let mut value = u206265::from_u8(200);
    let overflow = const_add_assign(&mut value, &u206265::from_u8(100));
    assert!(!overflow);
    assert_eq!(value.try_into_u16(), Ok(300));
}
