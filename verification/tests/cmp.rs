use core::cmp::Ordering;
use not_too_many_arcseconds::{const_cmp, const_eq, const_lt, const_shl, u206265};
use quickcheck::QuickCheck;

fn cmp_matches(lhs: u128, rhs: u128) -> bool {
    let comp = lhs.cmp(&rhs);
    let the_lhs = u206265::from(lhs);
    let the_rhs = u206265::from(rhs);
    let the_comp = const_cmp(&the_lhs, &the_rhs);
    comp == the_comp
}

#[test]
fn cmp() {
    QuickCheck::new().tests(100).quickcheck(cmp_matches as fn(u128, u128) -> bool);
}

#[test]
fn cmp_goes_by_length_first() {
    let short = u206265::from_u8(255);
    let long = u206265::from_u16(256);
    assert_eq!(const_cmp(&short, &long), Ordering::Less);
    assert_eq!(const_cmp(&long, &short), Ordering::Greater);
    assert_eq!(const_cmp(&long, &long), Ordering::Equal);
}

#[test]
fn cmp_is_decided_by_the_highest_differing_byte() {
    let a = u206265::from_u32(0x01_FF_00);
    let b = u206265::from_u32(0x02_00_FF);
    assert_eq!(const_cmp(&a, &b), Ordering::Less);
    assert_eq!(const_cmp(&b, &a), Ordering::Greater);
    let c = u206265::from_u32(0x02_00_FE);
    assert_eq!(const_cmp(&b, &c), Ordering::Greater);
}

#[test]
fn cmp_of_the_extremes() {
    assert_eq!(const_cmp(&u206265::zero(), &u206265::max_value()), Ordering::Less);
    assert_eq!(const_cmp(&u206265::max_value(), &u206265::max_value()), Ordering::Equal);
    let (high, _) = const_shl(&u206265::one(), 206_264);
    assert_eq!(const_cmp(&high, &u206265::max_value()), Ordering::Less);
    assert_eq!(const_cmp(&high, &u206265::from_u128(u128::MAX)), Ordering::Greater);
}

#[test]
fn the_comparison_operators_agree() {
    let a = u206265::from_u8(3);
    let b = u206265::from_u16(300);
    assert!(a < b);
    assert!(b > a);
    assert!(a <= a);
    assert!(a != b);
    assert!(const_lt(&a, &b));
    assert!(!const_lt(&b, &a));
    assert!(!const_lt(&a, &a));
    assert!(const_eq(&a, &a));
    assert!(!const_eq(&a, &b));
    assert_eq!(a.partial_cmp(&b), Some(Ordering::Less));
}
