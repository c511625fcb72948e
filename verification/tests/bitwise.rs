use core::ops::{BitAnd, BitOr, BitXor};
use not_too_many_arcseconds::{
    const_bitand, const_bitand_assign, const_bitor, const_bitor_assign, const_bitxor,
    const_bitxor_assign, u206265,
};
use quickcheck::QuickCheck;

fn and_matches(lhs: u128, rhs: u128) -> bool {
    let and = lhs.bitand(rhs);
    let the_and = const_bitand(&u206265::from(lhs), &u206265::from(rhs));
    let and2 = u128::try_from(the_and).expect("ANDing two u128 should still be a valid u128");
    and == and2
}

fn or_matches(lhs: u128, rhs: u128) -> bool {
    let or = lhs.bitor(rhs);
    let the_or = const_bitor(&u206265::from(lhs), &u206265::from(rhs));
    let or2 = u128::try_from(the_or).expect("ANDing two u128 should still be a valid u128");
    or == or2
}

fn xor_matches(lhs: u128, rhs: u128) -> bool {
    let xor = lhs.bitxor(rhs);
    let the_xor = const_bitxor(&u206265::from(lhs), &u206265::from(rhs));
    let xor2 = u128::try_from(the_xor).expect("ANDing two u128 should still be a valid u128");
    xor == xor2
}

#[test]
fn and() {
    QuickCheck::new().tests(100).quickcheck(and_matches as fn(u128, u128) -> bool);
}

#[test]
fn or() {
    QuickCheck::new().tests(100).quickcheck(or_matches as fn(u128, u128) -> bool);
}

#[test]
fn xor() {
    QuickCheck::new().tests(100).quickcheck(xor_matches as fn(u128, u128) -> bool);
}

#[test]
fn bitwise_exact_values() {
    let a = u206265::from_u16(0b1100_1010_0101);
    let b = u206265::from_u16(0b1010_0110_0011);
    assert_eq!(const_bitand(&a, &b).try_into_u16(), Ok(0b1000_0010_0001));
    assert_eq!(const_bitor(&a, &b).try_into_u16(), Ok(0b1110_1110_0111));
    assert_eq!(const_bitxor(&a, &b).try_into_u16(), Ok(0b0110_1100_0110));
}

#[test]
fn bitwise_with_operands_of_different_lengths() {
    let short = u206265::from_u8(0xFF);
    let long = u206265::from_u32(0xAB_CD_EF_01);
    assert_eq!(const_bitand(&short, &long).try_into_u32(), Ok(0x01));
    assert_eq!(const_bitand(&long, &short).try_into_u32(), Ok(0x01));
    assert_eq!(const_bitor(&short, &long).try_into_u32(), Ok(0xAB_CD_EF_FF));
    assert_eq!(const_bitxor(&long, &short).try_into_u32(), Ok(0xAB_CD_EF_FE));
}

#[test]
fn bitwise_with_the_extremes() {
    let max = u206265::max_value();
    let value = u206265::from_u64(0x1234_5678);
    assert_eq!(const_bitand(&max, &value), value);
    assert_eq!(const_bitor(&max, &value), max);
    assert_eq!(const_bitxor(&max, &max), u206265::zero());
    assert_eq!(const_bitor(&u206265::zero(), &value), value);
    assert_eq!(const_bitand(&u206265::zero(), &max), u206265::zero());
}

#[test]
fn bitwise_in_place_agrees() {
    let mut value = u206265::from_u8(0b1100);
    const_bitand_assign(&mut value, &u206265::from_u8(0b1010));
    assert_eq!(value.try_into_u8(), Ok(0b1000));
    const_bitor_assign(&mut value, &u206265::from_u8(0b0011));
    assert_eq!(value.try_into_u8(), Ok(0b1011));
    const_bitxor_assign(&mut value, &u206265::from_u8(0b1111));
    assert_eq!(value.try_into_u8(), Ok(0b0100));
}

#[test]
fn every_bit_follows_the_operation() {
    let a = 0b1100u8;
    let b = 0b1010u8;
    let and = const_bitand(&u206265::from(a), &u206265::from(b)).try_into_u8().unwrap();
    let or = const_bitor(&u206265::from(a), &u206265::from(b)).try_into_u8().unwrap();
    let xor = const_bitxor(&u206265::from(a), &u206265::from(b)).try_into_u8().unwrap();
    for i in 0..8 {
        let bit_a = (a >> i) & 1 == 1;
        let bit_b = (b >> i) & 1 == 1;
        assert_eq!((and >> i) & 1 == 1, bit_a && bit_b);
        assert_eq!((or >> i) & 1 == 1, bit_a || bit_b);
        assert_eq!((xor >> i) & 1 == 1, bit_a != bit_b);
    }
}
