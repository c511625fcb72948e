use not_too_many_arcseconds::u206265;
use quickcheck::QuickCheck;

fn lower_hex_matches(val: u128) -> bool {
    format!("{:x}", val) == u206265::from(val).format_lower_hex()
}

#[test]
fn lower_hex() {
    QuickCheck::new().tests(50).quickcheck(lower_hex_matches as fn(u128) -> bool);
}

#[test]
fn special_lower_hex_for_256() {
    let val: u128 = 256;
    assert_eq!(format!("{:x}", val), u206265::from(val).format_lower_hex())
}

#[test]
fn special_lower_hex_for_272() {
    let val: u128 = 272;
    assert_eq!(format!("{:x}", val), u206265::from(val).format_lower_hex())
}

#[test]
fn special_lower_hex_for_1792() {
    let val: u128 = 1792;
    assert_eq!(format!("{:x}", val), u206265::from(val).format_lower_hex())
}

fn upper_hex_matches(val: u128) -> bool {
    format!("{:X}", val) == u206265::from(val).format_upper_hex()
}

#[test]
fn upper_hex() {
    QuickCheck::new().tests(50).quickcheck(upper_hex_matches as fn(u128) -> bool);
}

fn display_matches(val: u128) -> bool {
    format!("{}", val) == u206265::from(val).format_decimal()
}

#[test]
fn display() {
    QuickCheck::new().tests(20).quickcheck(display_matches as fn(u128) -> bool);
}

#[test]
fn special_display_for_256() {
    let val: u128 = 256;
    assert_eq!(format!("{}", val), u206265::from(val).format_decimal());
}

#[test]
fn special_display_for_46_350_398_256_093_263_243_789_728_937_492_374_032() {
    let val: u128 = 46_350_398_256_093_263_243_789_728_937_492_374_032;
    assert_eq!(format!("{}", val), u206265::from(val).format_decimal());
}

#[test]
fn special_display_for_100_000_000_000_000_000_000_000_000_000_000_000_000() {
    let val: u128 = 100_000_000_000_000_000_000_000_000_000_000_000_000;
    assert_eq!(format!("{}", val), u206265::from(val).format_decimal());
}

#[test]
fn special_display_for_256_000_000_000_000_000_000_000_000_000_000_000_000() {
    let val: u128 = 256_000_000_000_000_000_000_000_000_000_000_000_000;
    assert_eq!(format!("{}", val), u206265::from(val).format_decimal());
}

#[test]
fn special_display_for_300_000_000_000_000_000_000_000_000_000_000_000_000() {
    let val: u128 = 300_000_000_000_000_000_000_000_000_000_000_000_000;
    assert_eq!(format!("{}", val), u206265::from(val).format_decimal());
}

#[test]
fn special_display_for_max() {
    let val: u128 = u128::MAX;
    assert_eq!(format!("{}", val), u206265::from(val).format_decimal());
}

#[test]
fn decimal_of_zero_is_one_digit() {
    assert_eq!(u206265::zero().format_decimal(), "0");
}

#[test]
fn decimal_of_256() {
    assert_eq!(u206265::from_u16(256).format_decimal(), "256");
}

#[test]
fn hex_of_aabb_in_both_cases() {
    let value = u206265::from_u32(0xAABB);
    assert_eq!(value.format_lower_hex(), "aabb");
    assert_eq!(value.format_upper_hex(), "AABB");
    assert_eq!(value.format_hex(false), "aabb");
    assert_eq!(value.format_hex(true), "AABB");
}

#[test]
fn hex_of_zero_is_one_digit() {
    assert_eq!(u206265::zero().format_lower_hex(), "0");
    assert_eq!(u206265::zero().format_upper_hex(), "0");
}

#[test]
fn hex_pads_every_byte_below_the_top() {
    assert_eq!(u206265::from_u32(0x1_00_0A).format_lower_hex(), "1000a");
    assert_eq!(u206265::from_u64(0xF0_00_00_01).format_upper_hex(), "F0000001");
}

#[test]
fn decimal_pads_every_chunk_below_the_top() {
    // One followed by 38 zeros and a seven: two chunks, the lower one padded.
    let ten_38 = u206265::from_u128(100_000_000_000_000_000_000_000_000_000_000_000_000);
    let seven = u206265::from_u8(7);
    let (value, overflow) = not_too_many_arcseconds::const_add(&ten_38, &seven);
    assert!(!overflow);
    assert_eq!(value.format_decimal(), "100000000000000000000000000000000000007");
}

#[test]
fn decimal_beyond_the_native_width() {
    // 2^128 = u128::MAX + 1
    let (value, overflow) =
        not_too_many_arcseconds::const_add(&u206265::from_u128(u128::MAX), &u206265::one());
    assert!(!overflow);
    assert_eq!(value.format_decimal(), "340282366920938463463374607431768211456");
    assert_eq!(value.format_lower_hex(), "100000000000000000000000000000000");
}

#[test]
fn hex_of_the_maximum() {
    let hex = u206265::max_value().format_lower_hex();
    assert_eq!(hex.len(), 1 + 2 * 25_783);
    assert!(hex.starts_with("1ff"));
    assert!(hex.chars().skip(1).all(|c| c == 'f'));
}

#[test]
fn decimal_length_is_one_more_than_the_logarithm() {
    let (value, _) = not_too_many_arcseconds::const_shl(&u206265::one(), 300);
    let digits = value.format_decimal();
    assert_eq!(
        digits,
        "2037035976334486086268445688409378161051468393665936250636140449354381299763336706183397376"
    );
    let log = not_too_many_arcseconds::const_ilog10(&value).unwrap();
    assert_eq!(log, 90);
    assert_eq!(digits.len(), log as usize + 1);
}
