//! The small helpers: hexadecimal rendering and byte widening.

use crisp_ate::utils::{hex, vec_u16_from_u8_vec};

#[test]
fn hex_renders_with_prefix_and_padding() {
    assert_eq!(hex(0x0), "0x00");
    assert_eq!(hex(0x5), "0x05");
    assert_eq!(hex(0x21), "0x21");
    assert_eq!(hex(0x987), "0x987");
    assert_eq!(hex(0xABCD), "0xabcd");
    assert_eq!(hex(0xFFFF), "0xffff");
}

#[test]
fn widening_keeps_values_and_order() {
    let first = 7u8;
    let second = 0u8;
    let third = 255u8;
    let nums: Vec<&u8> = vec![&first, &second, &third];
    let widened = vec_u16_from_u8_vec(nums);
    assert_eq!(widened, vec![7u16, 0u16, 255u16]);
}

#[test]
fn widening_an_empty_vector_gives_an_empty_vector() {
    let nums: Vec<&u8> = Vec::new();
    let widened = vec_u16_from_u8_vec(nums);
    assert!(widened.is_empty());
}
