use prtui::text::{decimal, pad_right};

#[test]
fn decimal_digits() {
    assert_eq!(decimal(0), "0");
    assert_eq!(decimal(7), "7");
    assert_eq!(decimal(10), "10");
    assert_eq!(decimal(123), "123");
    assert_eq!(decimal(usize::MAX), usize::MAX.to_string());
}

#[test]
fn pad_to_width() {
    assert_eq!(pad_right("abc", 6), "abc   ");
    assert_eq!(pad_right("abc", 3), "abc");
    assert_eq!(pad_right("abcdef", 2), "abcdef");
    assert_eq!(pad_right("", 2), "  ");
}

#[test]
fn pad_counts_characters() {
    assert_eq!(pad_right("né", 4), "né  ");
}
