use not_too_many_arcseconds::{const_mul, const_mul_assign, const_shl, u206265, u206265ToUnsigned};
use quickcheck::QuickCheck;

fn mul_matches(lhs: u128, rhs: u128) -> bool {
    let (mul, ov) = lhs.overflowing_mul(rhs);
    let the_lhs = u206265::from(lhs);
    let the_rhs = u206265::from(rhs);
    let (the_mul, the_ov) = const_mul(&the_lhs, &the_rhs);
    assert!(!the_ov, "Multiplying two u128 cannot result in overflow");
    let mul2 = u128::try_from(the_mul.const_clone());
    if ov {
        mul2 == Err(u206265ToUnsigned { bytes_required: the_mul.significant_bytes() })
    } else {
        mul2 == Ok(mul)
    }
}

fn mul_small_matches(lhs: u16, rhs: u16) -> bool {
    let (mul, ov) = lhs.overflowing_mul(rhs);
    let the_lhs = u206265::from(lhs);
    let the_rhs = u206265::from(rhs);
    let (the_mul, the_ov) = const_mul(&the_lhs, &the_rhs);
    assert!(!the_ov, "Multiplying two u128 cannot result in overflow");
    let mul2 = u16::try_from(the_mul.const_clone());
    if ov {
        mul2 == Err(u206265ToUnsigned { bytes_required: the_mul.significant_bytes() })
    } else {
        mul2 == Ok(mul)
    }
}

#[test]
fn mul() {
    QuickCheck::new().tests(100).quickcheck(mul_matches as fn(u128, u128) -> bool);
}

#[test]
fn mul_small() {
    QuickCheck::new().tests(100).quickcheck(mul_small_matches as fn(u16, u16) -> bool);
}

#[test]
fn mul_exact_values() {
    let (product, overflow) = const_mul(&u206265::from_u8(255), &u206265::from_u8(255));
    assert!(!overflow);
    assert_eq!(product.try_into_u16(), Ok(65_025));
    let (product, overflow) =
        const_mul(&u206265::from_u128(u128::MAX), &u206265::from_u128(u128::MAX));
    assert!(!overflow);
    assert_eq!(
        product.format_lower_hex(),
        "fffffffffffffffffffffffffffffffe00000000000000000000000000000001"
    );
    assert_eq!(product.significant_bytes(), 32);
}

#[test]
fn mul_by_zero_and_one() {
    let value = u206265::max_value();
    assert_eq!(const_mul(&value, &u206265::zero()), (u206265::zero(), false));
    assert_eq!(const_mul(&u206265::zero(), &value), (u206265::zero(), false));
    assert_eq!(const_mul(&value, &u206265::one()), (u206265::max_value(), false));
    assert_eq!(const_mul(&u206265::one(), &value), (u206265::max_value(), false));
}

#[test]
fn mul_overflows_into_the_top_byte() {
    // 2^206264 * 2 = 2^206265: the product needs one bit more than there is
    let (top, _) = const_shl(&u206265::one(), 206_264);
    let (product, overflow) = const_mul(&top, &u206265::from_u8(2));
    assert!(overflow);
    assert_eq!(product, u206265::zero());
    let (product, overflow) = const_mul(&top, &u206265::from_u8(3));
    assert!(overflow);
    assert_eq!(product, top);
    let (below, _) = const_shl(&u206265::one(), 206_263);
    let (product, overflow) = const_mul(&below, &u206265::from_u8(2));
    assert!(!overflow);
    assert_eq!(product, top);
}

#[test]
fn mul_overflows_beyond_the_last_byte() {
    // 2^103136 squared is 2^206272 = 256^25784: every byte that is kept is zero
    let (half, _) = const_shl(&u206265::one(), 103_136);
    let (product, overflow) = const_mul(&half, &half);
    assert!(overflow);
    assert_eq!(product, u206265::zero());
}

#[test]
fn mul_of_the_maximum_by_two_wraps() {
    let max = u206265::max_value();
    let (product, overflow) = const_mul(&max, &u206265::from_u8(2));
    assert!(overflow);
    let (expected, _) = not_too_many_arcseconds::const_sub(&max, &u206265::one());
    assert_eq!(product, expected);
}

#[test]
fn mul_in_place_agrees() {
    let mut value = u206265::from_u8(12);
    let overflow = const_mul_assign(&mut value, &u206265::from_u8(12));
    assert!(!overflow);
    assert_eq!(value.try_into_u8(), Ok(144));
}
