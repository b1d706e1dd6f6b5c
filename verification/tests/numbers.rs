use fbtext::decimal;

#[test]
fn renders_zero_and_positives() {
    assert_eq!(decimal::int_to_decimal(0), "0");
    assert_eq!(decimal::int_to_decimal(7), "7");
    assert_eq!(decimal::int_to_decimal(123), "123");
    assert_eq!(decimal::int_to_decimal(1000), "1000");
    assert_eq!(decimal::int_to_decimal(i32::MAX), "2147483647");
}

#[test]
fn renders_negatives() {
    assert_eq!(decimal::int_to_decimal(-1), "-1");
    assert_eq!(decimal::int_to_decimal(-45), "-45");
    assert_eq!(decimal::int_to_decimal(i32::MIN), "-2147483648");
}
