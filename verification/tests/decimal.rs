//! Tests of the decimal rendering used in diagnostic messages.

use benchmark_runner::decimal::usize_to_string;

#[test]
fn renders_single_digits() {
    assert_eq!(usize_to_string(0), "0");
    assert_eq!(usize_to_string(7), "7");
    assert_eq!(usize_to_string(9), "9");
}

#[test]
fn renders_multi_digit_numbers_most_significant_first() {
    assert_eq!(usize_to_string(10), "10");
    assert_eq!(usize_to_string(101), "101");
    assert_eq!(usize_to_string(12345), "12345");
    assert_eq!(usize_to_string(1000000), "1000000");
}
