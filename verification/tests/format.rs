use teamscale_timestamp::decimal::i64_to_dec_string;
use teamscale_timestamp::strings::str_contains;
use teamscale_timestamp::strings::trim;

#[test]
fn decimal_rendering() {
    assert_eq!("0", i64_to_dec_string(0));
    assert_eq!("7", i64_to_dec_string(7));
    assert_eq!("1552231634", i64_to_dec_string(1552231634));
    assert_eq!("-42", i64_to_dec_string(-42));
    assert_eq!("9223372036854775807", i64_to_dec_string(i64::MAX));
    assert_eq!("-9223372036854775808", i64_to_dec_string(i64::MIN));
}

#[test]
fn trimming() {
    assert_eq!("master", trim("  master\t\n"));
    assert_eq!("", trim(" \r\n "));
    assert_eq!("a b", trim("a b"));
}

#[test]
fn substring_search() {
    assert!(str_contains("Path: .\nURL: https://x\n", "URL:"));
    assert!(!str_contains("Path: .\n", "URL:"));
    assert!(str_contains("", ""));
}
