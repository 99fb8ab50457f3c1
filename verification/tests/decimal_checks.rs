use compile_time::decimal::{decimal_len, push_decimal, push_zero_padded};

fn decimal(n: u64) -> String {
    let mut text = String::new();
    push_decimal(&mut text, n);
    text
}

fn padded(n: u64, width: usize) -> String {
    let mut text = String::new();
    push_zero_padded(&mut text, n, width);
    text
}

#[test]
fn decimal_text_of_numbers() {
    assert_eq!(decimal(0), "0");
    assert_eq!(decimal(7), "7");
    assert_eq!(decimal(9), "9");
    assert_eq!(decimal(10), "10");
    assert_eq!(decimal(75), "75");
    assert_eq!(decimal(1234567890), "1234567890");
    assert_eq!(decimal(u64::MAX), "18446744073709551615");
    for n in [0u64, 1, 9, 10, 11, 99, 100, 101, 999, 1000, 9999, 10000, 4294967295, u64::MAX - 1] {
        assert_eq!(decimal(n), n.to_string());
    }
}

#[test]
fn decimal_text_is_appended() {
    let mut text = String::from("v");
    push_decimal(&mut text, 1);
    text.push('.');
    push_decimal(&mut text, 75);
    assert_eq!(text, "v1.75");
    push_zero_padded(&mut text, 3, 2);
    assert_eq!(text, "v1.7503");
}

#[test]
fn zero_padded_text_of_numbers() {
    assert_eq!(padded(0, 2), "00");
    assert_eq!(padded(5, 2), "05");
    assert_eq!(padded(15, 2), "15");
    assert_eq!(padded(123, 2), "123");
    assert_eq!(padded(0, 4), "0000");
    assert_eq!(padded(999, 4), "0999");
    assert_eq!(padded(2024, 4), "2024");
    assert_eq!(padded(10000, 4), "10000");
    assert_eq!(padded(7, 0), "7");
    assert_eq!(padded(7, 1), "7");
    assert_eq!(padded(0, 0), "0");
    assert_eq!(padded(u64::MAX, 25), "0000018446744073709551615");
    for n in [0u64, 3, 42, 100, 9999, 10000, 262142] {
        assert_eq!(padded(n, 2), format!("{:02}", n));
        assert_eq!(padded(n, 4), format!("{:04}", n));
        assert_eq!(padded(n, 7), format!("{:07}", n));
    }
}

#[test]
fn digits_are_counted() {
    assert_eq!(decimal_len(0), 1);
    assert_eq!(decimal_len(9), 1);
    assert_eq!(decimal_len(10), 2);
    assert_eq!(decimal_len(99), 2);
    assert_eq!(decimal_len(100), 3);
    assert_eq!(decimal_len(9_999_999_999_999_999_999), 19);
    assert_eq!(decimal_len(10_000_000_000_000_000_000), 20);
    assert_eq!(decimal_len(u64::MAX), 20);
}
