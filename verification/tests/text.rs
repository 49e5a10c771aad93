use debug_tools::text::parse_u32;
use debug_tools::text::{
    chars_contain, chars_eq, chars_occur_at, chars_of, chars_of_range, contains, decimal_string,
    ends_with, find_char, push_decimal, push_signed_decimal, push_underscored, starts_with, str_eq,
    string_of, string_of_range,
};

#[test]
fn characters_round_trip_through_vectors() {
    let chars = chars_of("h\u{e9}llo");
    assert_eq!(chars, vec!['h', '\u{e9}', 'l', 'l', 'o']);
    assert_eq!(string_of(&chars), "h\u{e9}llo");
    assert_eq!(string_of_range(&chars, 1, 3), "\u{e9}l");
    assert_eq!(chars_of_range(&chars, 3, 5), vec!['l', 'o']);
    assert_eq!(string_of_range(&chars, 2, 2), "");
}

#[test]
fn decimal_notation_of_unsigned_integers() {
    assert_eq!(decimal_string(0), "0");
    assert_eq!(decimal_string(7), "7");
    assert_eq!(decimal_string(10), "10");
    assert_eq!(decimal_string(1234567890), "1234567890");
    assert_eq!(decimal_string(u64::MAX), "18446744073709551615");
    let mut out = String::from("n=");
    push_decimal(&mut out, 405);
    assert_eq!(out, "n=405");
}

#[test]
fn decimal_notation_of_signed_integers() {
    let mut out = String::new();
    push_signed_decimal(&mut out, -42);
    assert_eq!(out, "-42");
    let mut least = String::new();
    push_signed_decimal(&mut least, i64::MIN);
    assert_eq!(least, "-9223372036854775808");
    let mut most = String::new();
    push_signed_decimal(&mut most, i64::MAX);
    assert_eq!(most, "9223372036854775807");
    let mut zero = String::new();
    push_signed_decimal(&mut zero, 0);
    assert_eq!(zero, "0");
}

#[test]
fn spaces_become_underscores() {
    let mut out = String::from(">");
    push_underscored(&mut out, "my  app name");
    assert_eq!(out, ">my__app_name");
}

#[test]
fn prefix_suffix_and_infix() {
    assert!(starts_with("rust_debug.log.2024", "rust_debug.log."));
    assert!(!starts_with("rust", "rust_debug"));
    assert!(starts_with("abc", ""));
    assert!(ends_with("console.jsonl", ".jsonl"));
    assert!(!ends_with("l", ".jsonl"));
    assert!(contains("the main window", "main"));
    assert!(contains("anything", ""));
    assert!(contains("", ""));
    assert!(!contains("abc", "abd"));
    assert!(!contains("ab", "abc"));
    assert!(contains("aab", "ab"));
}

#[test]
fn equality_of_texts() {
    assert!(str_eq("GET", "GET"));
    assert!(!str_eq("GET", "GE"));
    assert!(!str_eq("GET", "get"));
    assert!(str_eq("", ""));
    assert!(chars_eq(&vec!['a'], &vec!['a']));
    assert!(!chars_eq(&vec!['a'], &vec!['b']));
}

#[test]
fn occurrences_and_searches_on_vectors() {
    let hay = chars_of("a?b?c");
    assert!(chars_occur_at(&hay, &chars_of("b?"), 2));
    assert!(!chars_occur_at(&hay, &chars_of("b?"), 1));
    assert!(!chars_occur_at(&hay, &chars_of("c?"), 4));
    assert!(chars_occur_at(&hay, &Vec::new(), 5));
    assert!(!chars_occur_at(&hay, &Vec::new(), 6));
    assert!(chars_contain(&hay, &chars_of("?c")));
    assert_eq!(find_char(&hay, '?', 0), 1);
    assert_eq!(find_char(&hay, '?', 2), 3);
    assert_eq!(find_char(&hay, '?', 4), 5);
    assert_eq!(find_char(&hay, 'z', 0), 5);
}

#[test]
fn decimal_notation_is_read_back() {
    assert_eq!(parse_u32("0"), Some(0));
    assert_eq!(parse_u32("42"), Some(42));
    assert_eq!(parse_u32("007"), Some(7));
    assert_eq!(parse_u32("4294967295"), Some(u32::MAX));
    assert_eq!(parse_u32("4294967296"), None);
    assert_eq!(parse_u32("99999999999999999999999999"), None);
    assert_eq!(parse_u32(""), None);
    assert_eq!(parse_u32("+1"), None);
    assert_eq!(parse_u32("-1"), None);
    assert_eq!(parse_u32("12a"), None);
    assert_eq!(parse_u32(" 12"), None);
    for n in [0u32, 9, 10, 99, 100, 65_535, 1_000_000, u32::MAX] {
        assert_eq!(parse_u32(&decimal_string(n as u64)), Some(n));
    }
}
