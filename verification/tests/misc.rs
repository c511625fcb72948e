use not_too_many_arcseconds::{create_bytes, u206265, BITS, BYTES};

#[test]
#[allow(non_snake_case)]
fn significant_bytes_for_0u8_should_1() {
    let value = u206265::from(0u8);
    assert_eq!(value.significant_bytes(), 1);
}

#[test]
#[allow(non_snake_case)]
fn significant_bytes_for_1u8_should_1() {
    let value = u206265::from(1u8);
    assert_eq!(value.significant_bytes(), 1);
}

#[test]
#[allow(non_snake_case)]
fn significant_bytes_for_255u8_should_1() {
    let value = u206265::from(255u8);
    assert_eq!(value.significant_bytes(), 1);
}

#[test]
#[allow(non_snake_case)]
fn significant_bytes_for_0x00FFu16_should_1() {
    let value = u206265::from(0x00FFu16);
    assert_eq!(value.significant_bytes(), 1);
}

#[test]
#[allow(non_snake_case)]
fn significant_bytes_for_0x01FFu16_should_2() {
    let value = u206265::from(0x01FFu16);
    assert_eq!(value.significant_bytes(), 2);
}

#[test]
fn the_width_in_bits_and_bytes() {
    assert_eq!(BITS, 206_265);
    assert_eq!(BYTES, 25_784);
}

#[test]
fn significant_bytes_of_the_constants() {
    assert_eq!(u206265::zero().significant_bytes(), 1);
    assert_eq!(u206265::min_value().significant_bytes(), 1);
    assert_eq!(u206265::one().significant_bytes(), 1);
    assert_eq!(u206265::max_value().significant_bytes(), BYTES);
    assert_eq!(u206265::max_value().significant_bytes_u32(), 25_784);
    assert_eq!(u206265::zero().significant_bytes_slice(), [0]);
    assert_eq!(u206265::min_value(), u206265::zero());
}

#[test]
fn the_maximum_is_all_ones_below_the_top_bit() {
    let max = u206265::max_value();
    let bytes = max.significant_bytes_slice();
    assert_eq!(bytes.len(), BYTES);
    assert_eq!(bytes[BYTES - 1], 1);
    assert!(bytes[..BYTES - 1].iter().all(|b| *b == 0xFF));
}

#[test]
fn create_bytes_is_little_endian() {
    let value = create_bytes([0xF1, 0xDE, 0xCD, 0xAB]);
    assert_eq!(value.try_into_u32(), Ok(0xAB_CD_DE_F1));
    assert_eq!(create_bytes([]), u206265::zero());
    assert_eq!(create_bytes([0x01]), u206265::one());
    assert_eq!(create_bytes([7, 0, 0, 0, 0]).significant_bytes(), 1);
}

#[test]
fn clones_are_equal() {
    let value = u206265::from_u64(0xDEAD_BEEF);
    assert_eq!(value.const_clone(), value);
    assert_eq!(value.clone(), value);
    assert_ne!(value, u206265::one());
}

#[test]
fn sum_and_product_of_a_slice() {
    let items = [u206265::from_u8(2), u206265::from_u8(3), u206265::from_u8(7)];
    assert_eq!(u206265::sum(&items).try_into_u8(), Ok(12));
    assert_eq!(u206265::product(&items).try_into_u8(), Ok(42));
    assert_eq!(u206265::sum(&[]), u206265::zero());
    assert_eq!(u206265::product(&[]), u206265::one());
}

#[test]
fn create_bytes_takes_a_full_array_with_one_top_bit() {
    let mut array = [0u8; 25_784];
    array[0] = 5;
    array[25_783] = 1;
    let value = create_bytes(array);
    assert_eq!(value.significant_bytes(), BYTES);
    assert_eq!(value.significant_bytes_slice()[0], 5);
    let (top, _) = not_too_many_arcseconds::const_shl(&u206265::one(), 206_264);
    let (expected, _) = not_too_many_arcseconds::const_add(&top, &u206265::from_u8(5));
    assert_eq!(value, expected);
}

#[test]
fn sum_and_product_wrap() {
    let items = [u206265::max_value(), u206265::from_u8(2)];
    assert_eq!(u206265::sum(&items), u206265::one());
    let (expected, _) =
        not_too_many_arcseconds::const_sub(&u206265::max_value(), &u206265::one());
    assert_eq!(u206265::product(&items), expected);
}
