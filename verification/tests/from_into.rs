use not_too_many_arcseconds::{u206265, u206265ToSigned, u206265ToUnsigned};
use quickcheck::QuickCheck;

fn round_trip_u8(input: u8) -> bool {
    let Some(wide) = u206265::try_from_u8(input) else {
        return false;
    };
    u8::try_from(&wide) == Ok(input)
}

fn round_trip_u16(input: u16) -> bool {
    let Some(wide) = u206265::try_from_u16(input) else {
        return false;
    };
    u16::try_from(&wide) == Ok(input)
}

fn round_trip_u32(input: u32) -> bool {
    let Some(wide) = u206265::try_from_u32(input) else {
        return false;
    };
    u32::try_from(&wide) == Ok(input)
}

fn round_trip_u64(input: u64) -> bool {
    let Some(wide) = u206265::try_from_u64(input) else {
        return false;
    };
    u64::try_from(&wide) == Ok(input)
}

fn round_trip_u128(input: u128) -> bool {
    let Some(wide) = u206265::try_from_u128(input) else {
        return false;
    };
    u128::try_from(&wide) == Ok(input)
}

fn round_trip_usize(input: usize) -> bool {
    let Some(wide) = u206265::try_from_usize(input) else {
        return false;
    };
    usize::try_from(&wide) == Ok(input)
}

fn round_trip_i8(input: i8) -> bool {
    let Some(wide) = u206265::try_from_i8(input) else {
        return input < 0;
    };
    i8::try_from(&wide) == Ok(input)
}

fn round_trip_i16(input: i16) -> bool {
    let Some(wide) = u206265::try_from_i16(input) else {
        return input < 0;
    };
    i16::try_from(&wide) == Ok(input)
}

fn round_trip_i32(input: i32) -> bool {
    let Some(wide) = u206265::try_from_i32(input) else {
        return input < 0;
    };
    i32::try_from(&wide) == Ok(input)
}

fn round_trip_i64(input: i64) -> bool {
    let Some(wide) = u206265::try_from_i64(input) else {
        return input < 0;
    };
    i64::try_from(&wide) == Ok(input)
}

fn round_trip_i128(input: i128) -> bool {
    let Some(wide) = u206265::try_from_i128(input) else {
        return input < 0;
    };
    i128::try_from(&wide) == Ok(input)
}

fn round_trip_isize(input: isize) -> bool {
    let Some(wide) = u206265::try_from_isize(input) else {
        return input < 0;
    };
    isize::try_from(&wide) == Ok(input)
}

#[test]
fn from_into_u8() {
    QuickCheck::new().tests(100).quickcheck(round_trip_u8 as fn(u8) -> bool);
}

#[test]
fn from_into_u16() {
    QuickCheck::new().tests(100).quickcheck(round_trip_u16 as fn(u16) -> bool);
}

#[test]
fn from_into_u32() {
    QuickCheck::new().tests(100).quickcheck(round_trip_u32 as fn(u32) -> bool);
}

#[test]
fn from_into_u64() {
    QuickCheck::new().tests(100).quickcheck(round_trip_u64 as fn(u64) -> bool);
}

#[test]
fn from_into_u128() {
    QuickCheck::new().tests(100).quickcheck(round_trip_u128 as fn(u128) -> bool);
}

#[test]
fn from_into_usize() {
    QuickCheck::new().tests(100).quickcheck(round_trip_usize as fn(usize) -> bool);
}

#[test]
fn from_into_i8() {
    QuickCheck::new().tests(100).quickcheck(round_trip_i8 as fn(i8) -> bool);
}

#[test]
fn from_into_i16() {
    QuickCheck::new().tests(100).quickcheck(round_trip_i16 as fn(i16) -> bool);
}

#[test]
fn from_into_i32() {
    QuickCheck::new().tests(100).quickcheck(round_trip_i32 as fn(i32) -> bool);
}

#[test]
fn from_into_i64() {
    QuickCheck::new().tests(100).quickcheck(round_trip_i64 as fn(i64) -> bool);
}

#[test]
fn from_into_i128() {
    QuickCheck::new().tests(100).quickcheck(round_trip_i128 as fn(i128) -> bool);
}

#[test]
fn from_into_isize() {
    QuickCheck::new().tests(100).quickcheck(round_trip_isize as fn(isize) -> bool);
}

#[test]
fn special_from_into_u128_max() {
    let input: u128 = u128::MAX;
    let Some(wide) = u206265::try_from_u128(input) else {
        panic!("Could not convert positive value {input}");
    };
    let back = u128::try_from(&wide);
    assert_eq!(back, Ok(input))
}

#[test]
#[allow(non_snake_case)]
fn repr_as_1() {
    let result = u206265::from(1u8);
    assert_eq!(result.significant_bytes_slice(), [1]);
}

#[test]
#[allow(non_snake_case)]
fn repr_as_0xBB_0xAA() {
    let result = u206265::from(0xAA_BBu32);
    assert_eq!(result.significant_bytes_slice(), [0xBB, 0xAA]);
}

#[test]
fn extremes_of_every_native_type_round_trip() {
    assert_eq!(u206265::from_u8(u8::MAX).try_into_u8(), Ok(u8::MAX));
    assert_eq!(u206265::from_u16(u16::MAX).try_into_u16(), Ok(u16::MAX));
    assert_eq!(u206265::from_u32(u32::MAX).try_into_u32(), Ok(u32::MAX));
    assert_eq!(u206265::from_u64(u64::MAX).try_into_u64(), Ok(u64::MAX));
    assert_eq!(u206265::from_u128(u128::MAX).try_into_u128(), Ok(u128::MAX));
    assert_eq!(u206265::from_usize(usize::MAX).try_into_usize(), Ok(usize::MAX));
    assert_eq!(u206265::max_i8().try_into_i8(), Ok(i8::MAX));
    assert_eq!(u206265::max_i16().try_into_i16(), Ok(i16::MAX));
    assert_eq!(u206265::max_i32().try_into_i32(), Ok(i32::MAX));
    assert_eq!(u206265::max_i64().try_into_i64(), Ok(i64::MAX));
    assert_eq!(u206265::max_i128().try_into_i128(), Ok(i128::MAX));
    assert_eq!(u206265::max_isize().try_into_isize(), Ok(isize::MAX));
    assert_eq!(u206265::max_u8().try_into_u16(), Ok(255));
    assert_eq!(u206265::max_u16().try_into_u32(), Ok(65_535));
    assert_eq!(u206265::max_u32().try_into_u64(), Ok(4_294_967_295));
    assert_eq!(u206265::max_u64().try_into_u128(), Ok(18_446_744_073_709_551_615));
    assert_eq!(u206265::max_u128().try_into_u128(), Ok(u128::MAX));
    assert_eq!(u206265::max_usize().try_into_usize(), Ok(usize::MAX));
}

#[test]
fn narrowing_tells_the_bytes_required() {
    let value = u206265::from_u16(256);
    assert_eq!(value.try_into_u8(), Err(u206265ToUnsigned { bytes_required: 2 }));
    assert_eq!(value.try_into_u16(), Ok(256));
    let value = u206265::from_u128(u128::MAX);
    assert_eq!(value.try_into_u64(), Err(u206265ToUnsigned { bytes_required: 16 }));
    assert_eq!(
        u206265::max_value().try_into_u128(),
        Err(u206265ToUnsigned { bytes_required: 25_784 })
    );
}

#[test]
fn narrowing_to_signed_fails_in_two_ways() {
    assert_eq!(u206265::from_u8(200).try_into_i8(), Err(u206265ToSigned::Signed));
    assert_eq!(
        u206265::from_u16(300).try_into_i8(),
        Err(u206265ToSigned::Unsigned(u206265ToUnsigned { bytes_required: 2 }))
    );
    assert_eq!(u206265::from_u8(127).try_into_i8(), Ok(127));
    assert_eq!(u206265::from_u8(128).try_into_i8(), Err(u206265ToSigned::Signed));
    assert_eq!(u206265::from_u128(u128::MAX).try_into_i128(), Err(u206265ToSigned::Signed));
}

#[test]
fn negative_values_are_rejected() {
    assert!(u206265::try_from_i8(-1).is_none());
    assert!(u206265::try_from_i16(i16::MIN).is_none());
    assert!(u206265::try_from_i32(-5).is_none());
    assert!(u206265::try_from_i64(-5).is_none());
    assert!(u206265::try_from_i128(i128::MIN).is_none());
    assert!(u206265::try_from_isize(-1).is_none());
    assert!(u206265::try_from(-1i8).is_err());
    assert!(u206265::try_from(&-1i64).is_err());
    assert!(u206265::try_from(5i32).is_ok());
}

#[test]
fn the_conversion_traits_agree_with_the_methods() {
    let value = u206265::from(&77u8);
    assert_eq!(u8::try_from(value.clone()), Ok(77));
    assert_eq!(i16::try_from(&value), Ok(77));
    assert_eq!(i64::try_from(value.clone()), Ok(77));
    assert_eq!(u206265::try_from(77i128).unwrap(), value);
}
