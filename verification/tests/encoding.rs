use axum_rest_api::errors::error_body;
use axum_rest_api::text::{dec_i32, dec_u64, str_eq};

#[test]
fn dec_u64_digits() {
    assert_eq!(dec_u64(0), "0");
    assert_eq!(dec_u64(7), "7");
    assert_eq!(dec_u64(10), "10");
    assert_eq!(dec_u64(1234567890), "1234567890");
    assert_eq!(dec_u64(u64::MAX), "18446744073709551615");
}

#[test]
fn dec_i32_signs() {
    assert_eq!(dec_i32(0), "0");
    assert_eq!(dec_i32(42), "42");
    assert_eq!(dec_i32(-5), "-5");
    assert_eq!(dec_i32(i32::MAX), "2147483647");
    assert_eq!(dec_i32(i32::MIN), "-2147483648");
}

#[test]
fn error_body_wraps_message() {
    assert_eq!(error_body("boom"), "{\"error\":\"boom\"}");
    assert_eq!(error_body(""), "{\"error\":\"\"}");
}

#[test]
fn error_body_escapes_message() {
    assert_eq!(error_body("say \"hi\""), "{\"error\":\"say \\\"hi\\\"\"}");
    assert_eq!(error_body("a\\b"), "{\"error\":\"a\\\\b\"}");
    assert_eq!(error_body("a\nb"), "{\"error\":\"a\\nb\"}");
}

#[test]
fn str_eq_compares_characters() {
    assert!(str_eq("abc", "abc"));
    assert!(!str_eq("abc", "abd"));
    assert!(!str_eq("abc", "ab"));
    assert!(str_eq("", ""));
}
