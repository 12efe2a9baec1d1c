use raytracer_core::decimal::decimal_string;

#[test]
fn test_decimal_single_digits() {
    assert_eq!(decimal_string(0), "0");
    assert_eq!(decimal_string(7), "7");
    assert_eq!(decimal_string(9), "9");
}

#[test]
fn test_decimal_multi_digits() {
    assert_eq!(decimal_string(10), "10");
    assert_eq!(decimal_string(255), "255");
    assert_eq!(decimal_string(65535), "65535");
    assert_eq!(decimal_string(1_000_000_000), "1000000000");
}
