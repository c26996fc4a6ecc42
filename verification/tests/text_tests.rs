use rustycrab_api::text::{
    chars_of, contains_str, ends_with, is_whitespace, join_strings, parse_i32, parse_u64,
    push_decimal, push_signed_decimal, replace_str, split_on, split_whitespace, starts_with,
    string_of, to_ascii_lower, trim_str,
};

fn strings(v: &[&str]) -> Vec<String> {
    v.iter().map(|s| s.to_string()).collect()
}

#[test]
fn trim_removes_outer_whitespace() {
    assert_eq!(trim_str("  hello world \n"), "hello world");
    assert_eq!(trim_str("\u{3000}wide\u{00a0}"), "wide");
    assert_eq!(trim_str("   "), "");
}

#[test]
fn split_whitespace_skips_runs() {
    assert_eq!(split_whitespace("  a  b\tc "), strings(&["a", "b", "c"]));
    assert_eq!(split_whitespace(""), Vec::<String>::new());
}

#[test]
fn whitespace_follows_unicode() {
    assert!(is_whitespace(' '));
    assert!(is_whitespace('\u{2028}'));
    assert!(is_whitespace('\u{85}'));
    assert!(!is_whitespace('x'));
    assert!(!is_whitespace('\u{200b}'));
}

#[test]
fn characters_and_slices() {
    let v = chars_of("héllo");
    assert_eq!(v, vec!['h', 'é', 'l', 'l', 'o']);
    assert_eq!(string_of(&v, 1, 3), "él");
}

#[test]
fn prefixes_suffixes_and_search() {
    assert!(starts_with("https://x", "https://"));
    assert!(!starts_with("http", "https"));
    assert!(ends_with("<@1>", ">"));
    assert!(contains_str("a soundcloud.com b", "soundcloud.com"));
    assert!(!contains_str("abc", "abd"));
    assert!(contains_str("abc", ""));
}

#[test]
fn parse_u64_follows_std() {
    assert_eq!(parse_u64("42"), Some(42));
    assert_eq!(parse_u64("+7"), Some(7));
    assert_eq!(parse_u64("18446744073709551615"), Some(u64::MAX));
    assert_eq!(parse_u64("18446744073709551616"), None);
    assert_eq!(parse_u64(""), None);
    assert_eq!(parse_u64("+"), None);
    assert_eq!(parse_u64("-1"), None);
    assert_eq!(parse_u64(" 1"), None);
    for s in ["0", "123", "+99", "x", "1e3"] {
        assert_eq!(parse_u64(s), s.parse::<u64>().ok());
    }
}

#[test]
fn parse_i32_follows_std() {
    assert_eq!(parse_i32("-2147483648"), Some(i32::MIN));
    assert_eq!(parse_i32("2147483647"), Some(i32::MAX));
    assert_eq!(parse_i32("2147483648"), None);
    assert_eq!(parse_i32("-"), None);
    assert_eq!(parse_i32("+5"), Some(5));
    for s in ["0", "-0", "12", "-12", "a", ""] {
        assert_eq!(parse_i32(s), i32::from_str_radix(s, 10).ok());
    }
}

#[test]
fn decimals_are_written_as_std_does() {
    let mut s = String::from("n=");
    push_decimal(&mut s, 0);
    push_decimal(&mut s, 1234567890);
    assert_eq!(s, "n=01234567890");
    let mut t = String::new();
    push_signed_decimal(&mut t, -45);
    push_signed_decimal(&mut t, i64::MIN);
    assert_eq!(t, format!("-45{}", i64::MIN));
}

#[test]
fn replace_replaces_every_occurrence() {
    assert_eq!(replace_str("a-{id}-{id}", "{id}", "7"), "a-7-7");
    assert_eq!(replace_str("aaa", "aa", "b"), "ba");
    assert_eq!(replace_str("none", "x", "y"), "none");
}

#[test]
fn lower_case_is_ascii() {
    assert_eq!(to_ascii_lower('Q'), 'q');
    assert_eq!(to_ascii_lower('É'), 'É');
    assert_eq!(to_ascii_lower('1'), '1');
}

#[test]
fn split_on_keeps_empty_pieces() {
    assert_eq!(split_on("1:3:7", ':'), strings(&["1", "3", "7"]));
    assert_eq!(split_on("a::b", ':'), strings(&["a", "", "b"]));
    assert_eq!(split_on("", ':'), strings(&[""]));
}

#[test]
fn join_puts_the_separator_between() {
    assert_eq!(join_strings(&strings(&["a", "b", "c"]), ", "), "a, b, c");
    assert_eq!(join_strings(&strings(&[]), ", "), "");
    assert_eq!(join_strings(&strings(&["x"]), " "), "x");
}
