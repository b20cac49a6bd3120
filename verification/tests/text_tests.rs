use payroll_system::text::{decimal_string, push_decimal};

#[test]
fn decimal_string_of_small_numbers() {
    assert_eq!(decimal_string(0), "0");
    assert_eq!(decimal_string(7), "7");
    assert_eq!(decimal_string(10), "10");
}

#[test]
fn decimal_string_of_large_numbers() {
    assert_eq!(decimal_string(65535), "65535");
    assert_eq!(decimal_string(u64::MAX), "18446744073709551615");
}

#[test]
fn push_decimal_appends() {
    let mut out = String::from("port ");
    push_decimal(&mut out, 3000);
    assert_eq!(out, "port 3000");
}
