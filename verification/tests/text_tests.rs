use desktopcast::text::{push_decimal, push_signed_decimal, starts_with};

#[test]
fn decimal_of_zero_and_small_numbers() {
    let mut out = String::new();
    push_decimal(&mut out, 0);
    assert_eq!(out, "0");
    let mut out = String::from("n=");
    push_decimal(&mut out, 1920);
    assert_eq!(out, "n=1920");
    let mut out = String::new();
    push_decimal(&mut out, 10);
    assert_eq!(out, "10");
}

#[test]
fn decimal_of_largest_number() {
    let mut out = String::new();
    push_decimal(&mut out, u64::MAX);
    assert_eq!(out, "18446744073709551615");
}

#[test]
fn signed_decimal_has_minus_sign() {
    let mut out = String::new();
    push_signed_decimal(&mut out, -5);
    assert_eq!(out, "-5");
    let mut out = String::new();
    push_signed_decimal(&mut out, i32::MIN);
    assert_eq!(out, "-2147483648");
    let mut out = String::new();
    push_signed_decimal(&mut out, 32767);
    assert_eq!(out, "32767");
}

#[test]
fn starts_with_tests_prefix() {
    assert!(starts_with("pulse_out", "pulse"));
    assert!(starts_with("pulse", "pulse"));
    assert!(starts_with("anything", ""));
    assert!(!starts_with("puls", "pulse"));
    assert!(!starts_with("alsa_pulse", "pulse"));
}
