use not_too_many_arcseconds::u206265;

#[test]
fn arithmetic_operators() {
    let a = u206265::from(2u8);
    let b = u206265::from(3u128);
    assert_eq!(a.clone() + b.clone(), 5u32.into());
    assert_eq!(&a + &b, u206265::from(5u8));
    assert_eq!(&b - &a, u206265::one());
    assert_eq!(&a * b.clone(), u206265::from(6u8));
    assert_eq!(u206265::from(17u8) / &b, u206265::from(5u8));
    assert_eq!(u206265::from(17u8) % b.clone(), a);
}

#[test]
fn assigning_operators() {
    let mut value = u206265::from(10u8);
    value += u206265::from(5u8);
    assert_eq!(value, u206265::from(15u8));
    value -= &u206265::from(3u8);
    assert_eq!(value, u206265::from(12u8));
    value *= u206265::from(12u8);
    assert_eq!(value, u206265::from(144u8));
    value /= u206265::from(10u8);
    assert_eq!(value, u206265::from(14u8));
    value %= &u206265::from(4u8);
    assert_eq!(value, u206265::from(2u8));
    value |= u206265::from(0b1001u8);
    assert_eq!(value, u206265::from(0b1011u8));
    value &= u206265::from(0b0110u8);
    assert_eq!(value, u206265::from(0b0010u8));
    value ^= &u206265::from(0b0111u8);
    assert_eq!(value, u206265::from(0b0101u8));
    value <<= 4u8;
    assert_eq!(value, u206265::from(0b0101_0000u8));
    value >>= &2i64;
    assert_eq!(value, u206265::from(0b0001_0100u8));
}

#[test]
fn assigning_operators_wrap() {
    let mut value = u206265::max_value();
    value += u206265::one();
    assert_eq!(value, u206265::zero());
    value -= u206265::one();
    assert_eq!(value, u206265::max_value());
}

#[test]
fn bitwise_operators() {
    let a = u206265::from(0b1100u8);
    let b = u206265::from(0b1010u8);
    assert_eq!(&a & &b, u206265::from(0b1000u8));
    assert_eq!(&a | b.clone(), u206265::from(0b1110u8));
    assert_eq!(a.clone() ^ &b, u206265::from(0b0110u8));
    assert_eq!(!(!a.clone()), a);
}

#[test]
fn shift_operators_take_every_integer_type() {
    let one = u206265::one();
    assert_eq!(one.clone() << 3u8, u206265::from(8u8));
    assert_eq!(one.clone() << 3u16, u206265::from(8u8));
    assert_eq!(one.clone() << 3u32, u206265::from(8u8));
    assert_eq!(one.clone() << 3u64, u206265::from(8u8));
    assert_eq!(one.clone() << 3u128, u206265::from(8u8));
    assert_eq!(one.clone() << 3usize, u206265::from(8u8));
    assert_eq!(one.clone() << 3i8, u206265::from(8u8));
    assert_eq!(one.clone() << 3i16, u206265::from(8u8));
    assert_eq!(one.clone() << 3i32, u206265::from(8u8));
    assert_eq!(one.clone() << 3i64, u206265::from(8u8));
    assert_eq!(one.clone() << 3i128, u206265::from(8u8));
    assert_eq!(one.clone() << 3isize, u206265::from(8u8));
    assert_eq!(one.clone() << u206265::from(3u8), u206265::from(8u8));
    assert_eq!(&one << &3u8, u206265::from(8u8));
    let eight = u206265::from(8u8);
    assert_eq!(eight.clone() >> 3u8, one);
    assert_eq!(&eight >> 2i32, u206265::from(2u8));
    assert_eq!(eight.clone() >> &u206265::from(1u8), u206265::from(4u8));
    assert_eq!(&eight >> &4usize, u206265::zero());
}
