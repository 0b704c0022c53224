use failover_proxy::size::{parse_size, SizeError};
use failover_proxy::text::u64_to_string;

#[test]
fn plain_numbers_are_bytes() {
    assert_eq!(parse_size("0"), Ok(0));
    assert_eq!(parse_size("512"), Ok(512));
    assert_eq!(parse_size("10485760"), Ok(10 * 1024 * 1024));
}

#[test]
fn suffixes_are_base_1024() {
    assert_eq!(parse_size("1KB"), Ok(1024));
    assert_eq!(parse_size("10MB"), Ok(10 * 1024 * 1024));
    assert_eq!(parse_size("2GB"), Ok(2 * 1024 * 1024 * 1024));
}

#[test]
fn suffixes_are_case_insensitive() {
    assert_eq!(parse_size("1kb"), Ok(1024));
    assert_eq!(parse_size("3Mb"), Ok(3 * 1024 * 1024));
    assert_eq!(parse_size("4gB"), Ok(4 * 1024 * 1024 * 1024));
}

#[test]
fn a_leading_plus_is_tolerated() {
    assert_eq!(parse_size("+5KB"), Ok(5 * 1024));
}

#[test]
fn empty_or_non_numeric_input_is_rejected() {
    assert_eq!(parse_size(""), Err(SizeError::InvalidNumber));
    assert_eq!(parse_size("KB"), Err(SizeError::InvalidNumber));
    assert_eq!(parse_size("+KB"), Err(SizeError::InvalidNumber));
    assert_eq!(parse_size("abc"), Err(SizeError::InvalidNumber));
    assert_eq!(parse_size("12XB"), Err(SizeError::InvalidNumber));
    assert_eq!(parse_size("10 MB"), Err(SizeError::InvalidNumber));
    assert_eq!(parse_size("-5KB"), Err(SizeError::InvalidNumber));
    assert_eq!(parse_size("1.5MB"), Err(SizeError::InvalidNumber));
}

#[test]
fn oversized_values_are_rejected_not_wrapped() {
    assert_eq!(
        parse_size("99999999999999999999999999"),
        Err(SizeError::Overflow)
    );
    assert_eq!(parse_size("99999999999999999999GB"), Err(SizeError::Overflow));
}

#[test]
fn decimal_rendering_is_exact() {
    assert_eq!(u64_to_string(0), "0");
    assert_eq!(u64_to_string(7), "7");
    assert_eq!(u64_to_string(10), "10");
    assert_eq!(u64_to_string(1234567890123), "1234567890123");
    assert_eq!(u64_to_string(u64::MAX), "18446744073709551615");
}
