use core::ops::Not;
use not_too_many_arcseconds::{const_not_assign, u206265};
use quickcheck::QuickCheck;

fn not_not_equals(val: u128) -> bool {
    let val = u206265::from(val);
    let not_not = val.clone().not().not();
    val == not_not
}

fn not_xor_is_max(val: u128) -> bool {
    let val = u206265::from(val);
    let not = !(val.clone());
    (val ^ not) == u206265::max_value()
}

fn not_and_is_zero(val: u128) -> bool {
    let val = u206265::from(val);
    let not = !(val.clone());
    (val & not) == u206265::zero()
}

#[test]
fn not_not_should_equal() {
    QuickCheck::new().tests(30).quickcheck(not_not_equals as fn(u128) -> bool);
}

#[test]
fn not_xor_should_max() {
    QuickCheck::new().tests(30).quickcheck(not_xor_is_max as fn(u128) -> bool);
}

#[test]
fn not_and_should_zero() {
    QuickCheck::new().tests(30).quickcheck(not_and_is_zero as fn(u128) -> bool);
}

#[test]
fn special_not_not_should_equal_for_338_953_138_925_153_547_590_470_800_371_487_866_880() {
    let val: u128 = 338_953_138_925_153_547_590_470_800_371_487_866_880;
    let val = u206265::from(val);
    let not_not = val.clone().not().not();
    assert_eq!(val, not_not);
}

#[test]
fn special_not_or_should_max_for_0() {
    let val: u128 = 0;
    let val = u206265::from(val);
    let not = !(val.clone());
    assert_eq!((val ^ not), u206265::max_value());
}

#[test]
fn not_of_the_extremes() {
    assert_eq!(!u206265::zero(), u206265::max_value());
    assert_eq!(!u206265::max_value(), u206265::zero());
    assert_eq!(!&u206265::max_value(), u206265::zero());
    let mut value = u206265::one();
    const_not_assign(&mut value);
    assert_eq!(value.significant_bytes_slice()[0], 0xFE);
    assert_eq!(value.significant_bytes_slice()[25_783], 1);
    const_not_assign(&mut value);
    assert_eq!(value, u206265::one());
}

#[test]
fn not_of_the_maximum_xor_and() {
    let max = u206265::max_value();
    let not = !&max;
    assert_eq!(&max ^ &not, u206265::max_value());
    assert_eq!(&max & &not, u206265::zero());
}
