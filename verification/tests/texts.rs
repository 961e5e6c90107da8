use jitserver::text::{
    contains, equal_ignoring_case, read_number, tail_after, trim, write_decimal, write_hexadecimal,
};

#[test]
fn numbers_are_written() {
    assert_eq!(write_decimal(0), "0");
    assert_eq!(write_decimal(40_960), "40960");
    assert_eq!(write_decimal(u64::MAX), "18446744073709551615");
    assert_eq!(write_hexadecimal(0), "0");
    assert_eq!(write_hexadecimal(0xdead_beef), "deadbeef");
    assert_eq!(write_hexadecimal(u64::MAX), "ffffffffffffffff");
}

#[test]
fn numbers_are_read() {
    assert_eq!(read_number("0"), Some(0));
    assert_eq!(read_number("+17"), Some(17));
    assert_eq!(read_number("007"), Some(7));
    assert_eq!(read_number("4294967295"), Some(u32::MAX));
    assert_eq!(read_number("4294967296"), None);
    assert_eq!(read_number(""), None);
    assert_eq!(read_number("+"), None);
    assert_eq!(read_number("-1"), None);
    assert_eq!(read_number("1 2"), None);
    assert_eq!(read_number("12x"), None);
    assert_eq!(read_number("++1"), None);
}

#[test]
fn written_numbers_are_read_back() {
    for number in [0u32, 1, 9, 10, 99, 100, 31337, u32::MAX - 1, u32::MAX] {
        assert_eq!(read_number(&write_decimal(number as u64)), Some(number));
        assert_eq!(write_decimal(number as u64), number.to_string());
        assert_eq!(write_hexadecimal(number as u64), format!("{number:x}"));
    }
}

#[test]
fn white_space_is_trimmed() {
    assert_eq!(trim("  a b\t\r\n"), "a b");
    assert_eq!(trim("\u{a0}x\u{2003}"), "x");
    assert_eq!(trim("\u{200b}x"), "\u{200b}x");
    for blank in [
        '\t', '\u{b}', '\r', ' ', '\u{85}', '\u{a0}', '\u{1680}', '\u{2000}', '\u{200a}', '\u{2028}',
        '\u{2029}', '\u{202f}', '\u{205f}', '\u{3000}',
    ] {
        assert_eq!(trim(&format!("{blank}x{blank}")), "x");
    }
    for visible in ['\u{8}', '\u{e}', '\u{1f}', '\u{7f}', '\u{180e}', '\u{200b}', '\u{feff}'] {
        let text = format!("{visible}x{visible}");
        assert_eq!(trim(&text), text);
    }
    assert_eq!(trim(" \n "), "");
    assert_eq!(trim(""), "");
    assert_eq!(trim("plain"), "plain");
}

#[test]
fn texts_are_searched() {
    assert!(contains("device socket io failed", "socket"));
    assert!(contains("abc", ""));
    assert!(contains("", ""));
    assert!(contains("aab", "ab"));
    assert!(!contains("abc", "abd"));
    assert!(!contains("a", "ab"));
}

#[test]
fn tails_follow_the_last_mark() {
    assert_eq!(tail_after("a/b/c", '/'), "c");
    assert_eq!(tail_after("a/b/", '/'), "");
    assert_eq!(tail_after("abc", '/'), "abc");
}

#[test]
fn only_ascii_case_is_ignored() {
    assert!(equal_ignoring_case("LiveContainer", "livecontainer"));
    assert!(!equal_ignoring_case("\u{c9}", "\u{e9}"));
    assert!(!equal_ignoring_case("abc", "abcd"));
}
