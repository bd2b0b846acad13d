use pidfile::{is_space_char, marker_text, parse_pid};

fn chars(s: &str) -> Vec<char> {
    s.chars().collect()
}

fn parse(s: &str) -> Option<i32> {
    parse_pid(&chars(s))
}

#[test]
fn parses_plain_decimal() {
    assert_eq!(parse("12345"), Some(12345));
}

#[test]
fn parses_with_surrounding_white_space() {
    assert_eq!(parse("  42\n"), Some(42));
    assert_eq!(parse("\t7\r\n"), Some(7));
}

#[test]
fn parses_with_unicode_white_space() {
    assert_eq!(parse("\u{a0}12\u{3000}"), Some(12));
    assert_eq!(parse("\u{2028}9\u{85}"), Some(9));
}

#[test]
fn parses_leading_plus_and_zeros() {
    assert_eq!(parse("+7"), Some(7));
    assert_eq!(parse("007"), Some(7));
}

#[test]
fn parses_largest_pid() {
    assert_eq!(parse("2147483647"), Some(i32::MAX));
}

#[test]
fn rejects_too_large() {
    assert_eq!(parse("2147483648"), None);
    assert_eq!(parse("99999999999999999999"), None);
}

#[test]
fn rejects_zero_and_negative() {
    assert_eq!(parse("0"), None);
    assert_eq!(parse("-5"), None);
    assert_eq!(parse("+0"), None);
}

#[test]
fn rejects_non_numeric() {
    assert_eq!(parse("not a pid"), None);
    assert_eq!(parse(""), None);
    assert_eq!(parse("   "), None);
    assert_eq!(parse("+"), None);
    assert_eq!(parse("1 2"), None);
    assert_eq!(parse("12a"), None);
    assert_eq!(parse("++1"), None);
}

#[test]
fn white_space_matches_std() {
    for c in ['\t', '\n', ' ', '\u{85}', '\u{a0}', '\u{1680}', '\u{2005}', '\u{3000}', 'a', '0', '\u{200b}'] {
        assert_eq!(is_space_char(c), c.is_whitespace());
    }
}

#[test]
fn formats_decimal() {
    assert_eq!(marker_text(12345), chars("12345"));
    assert_eq!(marker_text(1), chars("1"));
    assert_eq!(marker_text(10), chars("10"));
    assert_eq!(marker_text(i32::MAX), chars("2147483647"));
}

#[test]
fn formatted_text_reads_back() {
    for pid in [1, 9, 10, 4242, 65536, i32::MAX] {
        assert_eq!(parse_pid(&marker_text(pid)), Some(pid));
    }
}
