use drcp::{decimal, trim, two_digits};

#[test]
fn trim_removes_surrounding_whitespace() {
    assert_eq!(trim("  hello world \n"), "hello world");
    assert_eq!(trim("\t\r\n"), "");
    assert_eq!(trim(""), "");
    assert_eq!(trim("x"), "x");
    assert_eq!(trim("\u{3000}zażółć\u{00A0}"), "zażółć");
    assert_eq!(trim(" a b "), "a b");
}

#[test]
fn trim_agrees_with_std() {
    for s in ["  9\n", "\u{2028}a\u{2029}", "\u{85}b", "\u{200B}c", " ", "ab  cd\r\n"] {
        assert_eq!(trim(s), s.trim());
    }
}

#[test]
fn decimal_writes_numbers() {
    assert_eq!(decimal(0), "0");
    assert_eq!(decimal(7), "7");
    assert_eq!(decimal(10), "10");
    assert_eq!(decimal(1234567890), "1234567890");
    assert_eq!(decimal(u64::MAX), u64::MAX.to_string());
}

#[test]
fn two_digits_pads_with_zero() {
    assert_eq!(two_digits(0), "00");
    assert_eq!(two_digits(5), "05");
    assert_eq!(two_digits(42), "42");
    assert_eq!(two_digits(123), "123");
}
