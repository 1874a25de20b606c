use shortener::decimal::{format_i32, parse_usize};

#[test]
fn format_i32_writes_display_text() {
    for n in [0i32, 1, 9, 10, 42, 100, 2023, -1, -42, -1000, i32::MAX, i32::MIN] {
        assert_eq!(format_i32(n), format!("{}", n));
    }
}

#[test]
fn format_i32_extremes() {
    assert_eq!(format_i32(i32::MIN), "-2147483648");
    assert_eq!(format_i32(i32::MAX), "2147483647");
    assert_eq!(format_i32(0), "0");
}

#[test]
fn parse_usize_accepts_digits_and_plus() {
    assert_eq!(parse_usize("0"), Some(0));
    assert_eq!(parse_usize("7"), Some(7));
    assert_eq!(parse_usize("+17"), Some(17));
    assert_eq!(parse_usize("007"), Some(7));
    assert_eq!(parse_usize("18446744073709551615"), Some(usize::MAX));
}

#[test]
fn parse_usize_refuses_what_std_refuses() {
    for text in ["", "+", "-", "-5", "-0", "12a", " 1", "1 ", "++1", "1.0", "\u{0663}", "18446744073709551616", "99999999999999999999999"] {
        assert_eq!(parse_usize(text), None, "text {:?}", text);
        assert!(text.parse::<usize>().is_err());
    }
}

#[test]
fn parse_usize_agrees_with_std() {
    for text in ["1", "+1", "10", "00", "+0", "123456789", "4294967296"] {
        assert_eq!(parse_usize(text), text.parse::<usize>().ok());
    }
}

#[test]
fn text_reads_back() {
    for n in [0i32, 1, 10, 99, 12345, i32::MAX] {
        assert_eq!(parse_usize(&format_i32(n)), Some(n as usize));
    }
    assert_eq!(parse_usize(&format_i32(-3)), None);
}
