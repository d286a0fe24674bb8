use playbot::numbers::{i64_to_string, i64_to_string_pad2, parse_i64_or_zero, u64_to_string, usize_to_string};
use playbot::text::{
    contains_str, find_str, split_char, split_lines, str_eq, trim_start_matches_str,
    trim_start_numeric, trim_str,
};

#[test]
fn find_first_occurrence() {
    assert_eq!(find_str("hello world", "world"), Some(6));
    assert_eq!(find_str("aaa", "aa"), Some(0));
    assert_eq!(find_str("hello", "xyz"), None);
    assert_eq!(find_str("abc", ""), Some(0));
    assert_eq!(find_str("", "a"), None);
    assert_eq!(find_str("naïve café", "café"), Some(6));
}

#[test]
fn contains_substring() {
    assert!(contains_str("hello world", "lo wo"));
    assert!(contains_str("anything", ""));
    assert!(!contains_str("short", "longer than"));
}

#[test]
fn string_equality() {
    assert!(str_eq("abc", "abc"));
    assert!(!str_eq("abc", "abd"));
    assert!(!str_eq("abc", "abcd"));
    assert!(str_eq("", ""));
}

#[test]
fn trim_both_ends() {
    assert_eq!(trim_str("  hello  "), "hello");
    assert_eq!(trim_str("\t\n x \r\n"), "x");
    assert_eq!(trim_str("none"), "none");
    assert_eq!(trim_str("   "), "");
    assert_eq!(trim_str(""), "");
}

#[test]
fn trim_start_matches_repeats() {
    assert_eq!(trim_start_matches_str("ababzzz", "ab"), "zzz");
    assert_eq!(trim_start_matches_str("zzz", "ab"), "zzz");
    assert_eq!(trim_start_matches_str("aaa", ""), "aaa");
    assert_eq!(trim_start_matches_str("abab", "ab"), "");
}

#[test]
fn trim_start_numeric_strips_digits() {
    assert_eq!(trim_start_numeric("12 Contributors"), " Contributors");
    assert_eq!(trim_start_numeric("abc"), "abc");
    assert_eq!(trim_start_numeric("٣x"), "x");
}

#[test]
fn split_on_separator() {
    let parts = split_char("a|b|c", '|');
    assert_eq!(parts, vec!["a".to_string(), "b".to_string(), "c".to_string()]);
    assert_eq!(split_char("abc", '|'), vec!["abc".to_string()]);
    assert_eq!(split_char("", '|'), vec!["".to_string()]);
    assert_eq!(split_char("|", '|'), vec!["".to_string(), "".to_string()]);
}

#[test]
fn split_lines_like_std() {
    for s in ["a\nb", "a\nb\n", "a\r\nb", "", "one", "a\n\nb\n"] {
        let expected: Vec<String> = s.lines().map(|l| l.to_string()).collect();
        assert_eq!(split_lines(s), expected, "on {:?}", s);
    }
}

#[test]
fn decimal_rendering() {
    assert_eq!(u64_to_string(0), "0");
    assert_eq!(u64_to_string(7), "7");
    assert_eq!(u64_to_string(12345), "12345");
    assert_eq!(u64_to_string(u64::MAX), u64::MAX.to_string());
    assert_eq!(i64_to_string(-1), "-1");
    assert_eq!(i64_to_string(i64::MIN), i64::MIN.to_string());
    assert_eq!(usize_to_string(42), "42");
}

#[test]
fn two_digit_padding() {
    assert_eq!(i64_to_string_pad2(0), "00");
    assert_eq!(i64_to_string_pad2(9), "09");
    assert_eq!(i64_to_string_pad2(10), "10");
    assert_eq!(i64_to_string_pad2(-5), "-5");
    for n in [-30i64, -5, 0, 5, 30, 59] {
        assert_eq!(i64_to_string_pad2(n), format!("{:02}", n));
    }
}

#[test]
fn parse_signed_decimal() {
    assert_eq!(parse_i64_or_zero("123"), 123);
    assert_eq!(parse_i64_or_zero("-5"), -5);
    assert_eq!(parse_i64_or_zero("+7"), 7);
    assert_eq!(parse_i64_or_zero("0"), 0);
    assert_eq!(parse_i64_or_zero(""), 0);
    assert_eq!(parse_i64_or_zero("-"), 0);
    assert_eq!(parse_i64_or_zero("12a"), 0);
    assert_eq!(parse_i64_or_zero(" 12"), 0);
    assert_eq!(parse_i64_or_zero("9223372036854775807"), i64::MAX);
    assert_eq!(parse_i64_or_zero("9223372036854775808"), 0);
    assert_eq!(parse_i64_or_zero("-9223372036854775808"), i64::MIN);
    assert_eq!(parse_i64_or_zero("-9223372036854775809"), 0);
}

#[test]
fn parse_agrees_with_std() {
    for s in ["545000", "-3", "00012", "1e3", "", "+42", "99999999999999999999"] {
        assert_eq!(parse_i64_or_zero(s), s.parse::<i64>().unwrap_or(0), "on {:?}", s);
    }
}
