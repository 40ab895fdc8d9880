use fsm::decimal::{i32_to_decimal, u32_to_decimal};

#[test]
fn unsigned_zero_renders_as_single_digit() {
    assert_eq!(u32_to_decimal(0), "0");
}

#[test]
fn unsigned_value_renders_all_digits() {
    assert_eq!(u32_to_decimal(1234), "1234");
    assert_eq!(u32_to_decimal(1000), "1000");
    assert_eq!(u32_to_decimal(u32::MAX), "4294967295");
}

#[test]
fn signed_values_render_with_sign() {
    assert_eq!(i32_to_decimal(0), "0");
    assert_eq!(i32_to_decimal(66), "66");
    assert_eq!(i32_to_decimal(-50), "-50");
    assert_eq!(i32_to_decimal(i32::MIN), "-2147483648");
    assert_eq!(i32_to_decimal(i32::MAX), "2147483647");
}
