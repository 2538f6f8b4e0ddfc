use obd::util::{bound, transform_array_of_u8_to_u16, transform_u16_to_array_of_u8};

#[test]
fn test_transform_u16_to_array_of_u8() {
    assert_eq!(transform_u16_to_array_of_u8(0x3C81), [0x3C, 0x81]);
}

#[test]
fn test_transform_array_of_u8_to_u16() {
    assert_eq!(transform_array_of_u8_to_u16([0x3C, 0x81]), 0x3C81);
}

#[test]
fn test_bound() {
    assert_eq!(bound(-20, 500, 100), 100);
    assert_eq!(bound(-20, 500, 600), 500);
    assert_eq!(bound(-20, 500, -5), -5);
    assert_eq!(bound(-20, 500, -400), -20);
}

#[test]
fn transform_round_trips_both_ways() {
    assert_eq!(transform_array_of_u8_to_u16(transform_u16_to_array_of_u8(0x0000)), 0x0000);
    assert_eq!(transform_array_of_u8_to_u16(transform_u16_to_array_of_u8(0xFFFF)), 0xFFFF);
    assert_eq!(transform_array_of_u8_to_u16(transform_u16_to_array_of_u8(0x7B28)), 0x7B28);
    assert_eq!(transform_u16_to_array_of_u8(transform_array_of_u8_to_u16([0x00, 0xFF])), [0x00, 0xFF]);
}
