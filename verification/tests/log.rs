use not_too_many_arcseconds::{const_ilog, const_ilog10, const_ilog2, const_shl, u206265};
use quickcheck::QuickCheck;

fn ilog_matches(val: u128, base: u128) -> bool {
    let log = val.checked_ilog(base);
    let the_val = u206265::from(val);
    let the_base = u206265::from(base);
    let log2 = const_ilog(&the_val, &the_base);
    log == log2
}

#[test]
fn ilog() {
    QuickCheck::new().tests(8).quickcheck(ilog_matches as fn(u128, u128) -> bool);
}

fn check_ilog(value: u128, base: u128) {
    let the_value = u206265::from(value);
    let the_base = u206265::from(base);
    let log = value.checked_ilog(base);
    let the_log = const_ilog(&the_value, &the_base);
    assert_eq!(log, the_log);
}

#[test]
fn special_ilog_for_9u128_base_3() {
    check_ilog(9u128, 3);
}

#[test]
fn special_ilog_for_10u128_base_3() {
    check_ilog(10u128, 3);
}

#[test]
fn special_ilog_for_10u128_base_10() {
    check_ilog(10u128, 10);
}

#[test]
fn special_ilog_for_11u128_base_10() {
    check_ilog(11u128, 10);
}

#[test]
fn special_ilog_for_100u128_base_10() {
    check_ilog(100u128, 10);
}

#[test]
fn special_ilog_for_999_999_999_999u128_base_10() {
    check_ilog(999_999_999_999u128, 10);
}

fn ilog10_matches(val: u128) -> bool {
    let log = val.checked_ilog10();
    let the_val = u206265::from(val);
    let log2 = const_ilog10(&the_val);
    log == log2
}

#[test]
fn ilog10() {
    QuickCheck::new().tests(8).quickcheck(ilog10_matches as fn(u128) -> bool);
}

fn ilog2_matches(val: u128) -> bool {
    let log = val.checked_ilog2();
    let the_val = u206265::from(val);
    let log2 = const_ilog2(&the_val);
    log == log2
}

#[test]
fn ilog2() {
    QuickCheck::new().tests(100).quickcheck(ilog2_matches as fn(u128) -> bool);
}

#[test]
fn special_ilog2_for_0u8() {
    let value = 0u8;
    assert_eq!(value.checked_ilog2(), const_ilog2(&u206265::from(value)));
}

#[test]
fn special_ilog2_for_1u8() {
    let value = 1u8;
    assert_eq!(value.checked_ilog2(), const_ilog2(&u206265::from(value)));
}

#[test]
fn special_ilog2_for_2u8() {
    let value = 2u8;
    assert_eq!(value.checked_ilog2(), const_ilog2(&u206265::from(value)));
}

#[test]
fn special_ilog2_for_3u8() {
    let value = 3u8;
    assert_eq!(value.checked_ilog2(), const_ilog2(&u206265::from(value)));
}

#[test]
fn special_ilog2_for_16u8() {
    let value = 16u8;
    assert_eq!(value.checked_ilog2(), const_ilog2(&u206265::from(value)));
}

#[test]
fn special_ilog2_for_17u8() {
    let value = 17u8;
    assert_eq!(value.checked_ilog2(), const_ilog2(&u206265::from(value)));
}

#[test]
fn special_ilog2_for_98_459_632_038_454_933_985_890_629_644_117_624_406_u128() {
    let value = 98_459_632_038_454_933_985_890_629_644_117_624_406_u128;
    assert_eq!(value.checked_ilog2(), const_ilog2(&u206265::from(value)));
}

#[test]
fn ilog2_of_zero_and_one() {
    assert_eq!(const_ilog2(&u206265::zero()), None);
    assert_eq!(const_ilog2(&u206265::one()), Some(0));
}

#[test]
fn ilog2_of_the_maximum() {
    assert_eq!(const_ilog2(&u206265::max_value()), Some(206_264));
}

#[test]
fn ilog2_of_a_power_of_two_beyond_the_native_width() {
    let (value, _) = const_shl(&u206265::one(), 1000);
    assert_eq!(const_ilog2(&value), Some(1000));
}

#[test]
fn ilog_needs_a_base_of_at_least_two() {
    let value = u206265::from_u8(100);
    assert_eq!(const_ilog(&value, &u206265::zero()), None);
    assert_eq!(const_ilog(&value, &u206265::one()), None);
    assert_eq!(const_ilog(&u206265::one(), &u206265::one()), None);
}

#[test]
fn ilog_of_zero_is_nothing() {
    assert_eq!(const_ilog(&u206265::zero(), &u206265::from_u8(2)), None);
    assert_eq!(const_ilog10(&u206265::zero()), None);
}

#[test]
fn ilog_of_one_is_zero() {
    assert_eq!(const_ilog(&u206265::one(), &u206265::from_u8(2)), Some(0));
    assert_eq!(const_ilog(&u206265::one(), &u206265::from_u128(u128::MAX)), Some(0));
    assert_eq!(const_ilog10(&u206265::one()), Some(0));
}

#[test]
fn ilog10_exact_values() {
    assert_eq!(const_ilog10(&u206265::from_u16(999)), Some(2));
    assert_eq!(const_ilog10(&u206265::from_u16(1000)), Some(3));
    assert_eq!(const_ilog10(&u206265::from_u16(1001)), Some(3));
}

#[test]
fn ilog_with_a_base_above_the_value() {
    assert_eq!(const_ilog(&u206265::from_u8(5), &u206265::from_u8(7)), Some(0));
}

#[test]
fn ilog_agrees_with_ilog2_beyond_the_native_width() {
    // 2^300 to the base 2: the table of squares is used up to 2^256.
    let (value, _) = const_shl(&u206265::one(), 300);
    assert_eq!(const_ilog(&value, &u206265::from_u8(2)), Some(300));
}

#[test]
fn ilog_with_a_base_whose_square_overflows() {
    // base = 2^103136, base^2 = 2^206272 does not fit; value = base * 2 + 1.
    let (base, _) = const_shl(&u206265::one(), 103_136);
    let (twice, _) = const_shl(&base, 1);
    let (value, _) = not_too_many_arcseconds::const_add(&twice, &u206265::one());
    assert_eq!(const_ilog(&value, &base), Some(1));
}
