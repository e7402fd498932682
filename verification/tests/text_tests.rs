use miru_client::scan::{
    contains, contains_char, cut_before, ends_with, join, parse_i64, parse_u32, parse_u64, replace,
    show, show_signed, show_wide, split_at_char, split_once, starts_with, strip_prefix, tail_after,
};
use miru_client::text::{
    alnum, ascii_space, blank, borrow_text, bytes_in, cat, cat3, cat5, char_width, chars_of,
    clone_opt_text, digit, eq_ignore_case, filled_text, hex_digit, lowercase, same_text, text_of,
    to_lower, to_upper, trim, trim_end_of, trim_start_of, uppercase, white_space,
};

#[test]
fn characters_come_back() {
    let v = chars_of("aé日");
    assert_eq!(v, vec!['a', 'é', '日']);
    assert_eq!(text_of(v.as_slice()), "aé日");
    assert_eq!(text_of(&[]), "");
}

#[test]
fn texts_are_compared_and_joined() {
    assert!(same_text("osu", "osu"));
    assert!(!same_text("osu", "Osu"));
    assert_eq!(cat("a", "b"), "ab");
    assert_eq!(cat3("a", "b", "c"), "abc");
    assert_eq!(cat5("a", "b", "c", "d", "e"), "abcde");
    assert_eq!(borrow_text(&Some("x".to_string())), Some("x"));
    assert_eq!(clone_opt_text(&None), None);
    assert_eq!(clone_opt_text(&Some("y".to_string())), Some("y".to_string()));
}

#[test]
fn widths_are_those_of_the_encoding() {
    for c in ['a', '\u{7f}', '\u{80}', '\u{7ff}', '\u{800}', '\u{ffff}', '\u{10000}'] {
        assert_eq!(char_width(c) as usize, c.len_utf8());
    }
    assert_eq!(bytes_in("aé日😀"), 10);
    assert_eq!(bytes_in(""), 0);
}

#[test]
fn white_space_is_that_of_unicode() {
    for n in 0..0x3100u32 {
        if let Some(c) = char::from_u32(n) {
            assert_eq!(white_space(c), c.is_whitespace(), "{n:x}");
            assert_eq!(ascii_space(c), c.is_ascii_whitespace(), "{n:x}");
            assert_eq!(digit(c), c.is_ascii_digit(), "{n:x}");
            assert_eq!(alnum(c), c.is_ascii_alphanumeric(), "{n:x}");
            assert_eq!(hex_digit(c), c.is_ascii_hexdigit(), "{n:x}");
            assert_eq!(to_lower(c), c.to_ascii_lowercase(), "{n:x}");
            assert_eq!(to_upper(c), c.to_ascii_uppercase(), "{n:x}");
        }
    }
}

#[test]
fn case_is_changed_for_ascii_alone() {
    assert_eq!(lowercase("ABC É 1"), "abc É 1");
    assert_eq!(uppercase("abc é 1"), "ABC é 1");
    assert!(eq_ignore_case("OSR", "osr"));
    assert!(!eq_ignore_case("osr", "osz"));
    assert!(!eq_ignore_case("É", "é"));
}

#[test]
fn white_space_is_trimmed() {
    for s in ["", "  ", " a ", "\u{a0}x\u{3000}", "a b", "\t\n\r a\u{b}"] {
        assert_eq!(trim(s), s.trim());
        assert_eq!(trim(trim(s).as_str()), s.trim());
    }
    assert_eq!(trim_start_of("//a//", '/'), "a//");
    assert_eq!(trim_end_of("//a//", '/'), "//a");
    assert!(blank(" \n"));
    assert!(!blank(" x"));
    assert_eq!(filled_text(Some("  a ")), Some("a".to_string()));
    assert_eq!(filled_text(Some("  ")), None);
    assert_eq!(filled_text(None), None);
}

#[test]
fn texts_are_searched() {
    assert!(starts_with("data:x", "data:"));
    assert!(!starts_with("dat", "data:"));
    assert!(starts_with("a", ""));
    assert!(ends_with("a/b.exe", "/b.exe"));
    assert!(!ends_with("b.exe", "/b.exe"));
    assert_eq!(strip_prefix("\\\\?\\C:", "\\\\?\\"), Some("C:".to_string()));
    assert_eq!(strip_prefix("C:", "\\\\?\\"), None);
    assert!(contains("abcabd", "abd"));
    assert!(contains("abc", ""));
    assert!(!contains("abc", "abcd"));
    assert!(contains_char("a/b", '/'));
    assert!(!contains_char("ab", '/'));
    assert_eq!(cut_before("a?b?c", "?"), "a");
    assert_eq!(cut_before("abc", "?"), "abc");
}

#[test]
fn texts_are_split_and_replaced() {
    assert_eq!(split_at_char("a,b,,c", ','), vec!["a", "b", "", "c"]);
    assert_eq!(split_at_char("", ','), vec![""]);
    assert_eq!(split_once("a:b:c", ':'), Some(("a".to_string(), "b:c".to_string())));
    assert_eq!(split_once("abc", ':'), None);
    assert_eq!(tail_after("bytes 0-0/12", '/'), Some("12".to_string()));
    assert_eq!(tail_after("a/b/c", '/'), Some("c".to_string()));
    assert_eq!(tail_after("abc", '/'), None);
    assert_eq!(replace("a'b'", '\'', "''"), "a''b''");
    assert_eq!(join(&vec!["a".to_string(), "b".to_string()], "/"), "a/b");
    assert_eq!(join(&vec![], "/"), "");
}

#[test]
fn numbers_are_read_as_the_standard_library_reads_them() {
    for s in [
        "", "0", "00", "+1", "-1", "-", "+", "18446744073709551615", "18446744073709551616",
        "4294967295", "4294967296", "9223372036854775807", "9223372036854775808",
        "-9223372036854775808", "-9223372036854775809", "1a", " 1", "--1", "٣",
    ] {
        assert_eq!(parse_u64(s), s.parse::<u64>().ok(), "{s}");
        assert_eq!(parse_u32(s), s.parse::<u32>().ok(), "{s}");
        assert_eq!(parse_i64(s), s.parse::<i64>().ok(), "{s}");
    }
}

#[test]
fn numbers_are_written() {
    assert_eq!(show(0), "0");
    assert_eq!(show(u64::MAX), u64::MAX.to_string());
    assert_eq!(show_signed(i64::MIN), i64::MIN.to_string());
    assert_eq!(show_signed(-7), "-7");
    assert_eq!(show_wide(u128::MAX), u128::MAX.to_string());
}
