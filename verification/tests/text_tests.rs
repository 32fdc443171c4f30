use duckpilot::text::{
    cat2, cat3, chars_of, contains, decimal_text, find_char, is_whitespace, join, owned, prefix_chars,
    split_lines, starts_with, find_text, str_eq, str_less, strip_prefix, trim, trim_end, trim_end_matches, trim_start,
};

#[test]
fn trims_unicode_white_space() {
    assert_eq!(trim("  \t hello \n"), "hello");
    assert_eq!(trim_start("\u{3000}x "), "x ");
    assert_eq!(trim_end(" x\u{a0}\r\n"), " x");
    assert_eq!(trim("   "), "");
    assert_eq!(trim(""), "");
}

#[test]
fn whitespace_matches_std() {
    for c in [' ', '\t', '\n', '\r', '\u{b}', '\u{c}', '\u{85}', '\u{a0}', '\u{2028}', '\u{3000}', 'a', '_', '中', '\u{200b}'] {
        assert_eq!(is_whitespace(c), c.is_whitespace(), "{:?}", c);
    }
}

#[test]
fn splits_lines_like_str_lines() {
    let cases = ["", "a", "a\n", "\n", "a\r\nb\n", "a\n\nb", "x\r", "one\ntwo\r\nthree"];
    for case in cases {
        let expected: Vec<String> = case.lines().map(|l| l.to_string()).collect();
        assert_eq!(split_lines(case), expected, "{:?}", case);
    }
}

#[test]
fn writes_decimal_numbers() {
    assert_eq!(decimal_text(0), "0");
    assert_eq!(decimal_text(7), "7");
    assert_eq!(decimal_text(12345), "12345");
    assert_eq!(decimal_text(u64::MAX), u64::MAX.to_string());
}

#[test]
fn joins_and_concatenates() {
    let parts = vec!["a".to_string(), "b".to_string(), "c".to_string()];
    assert_eq!(join(&parts, " | "), "a | b | c");
    assert_eq!(join(&Vec::new(), ","), "");
    assert_eq!(cat2("ab", "cd"), "abcd");
    assert_eq!(cat3("a", "", "c"), "ac");
    assert_eq!(owned("表"), "表");
}

#[test]
fn searches_text() {
    assert!(contains("table already exists here", "already exists"));
    assert!(!contains("already exist", "already exists"));
    assert!(contains("abc", ""));
    assert_eq!(find_char("a\nb\n", '\n'), Some(1));
    assert_eq!(find_char("abc", '\n'), None);
    assert!(starts_with("/help", "/"));
    assert!(!starts_with("", "/"));
    assert_eq!(strip_prefix("data: x", "data: "), Some("x"));
    assert_eq!(strip_prefix("dat", "data: "), None);
    assert!(str_eq("中文", "中文"));
    assert!(!str_eq("a", "b"));
    assert_eq!(chars_of("中a"), vec!['中', 'a']);
}

#[test]
fn cuts_and_orders_text() {
    assert_eq!(prefix_chars("中文字符", 2), "中文");
    assert_eq!(prefix_chars("ab", 5), "ab");
    assert_eq!(trim_end_matches("http://x///", '/'), "http://x");
    assert!(str_less("abc", "abd"));
    assert!(str_less("ab", "abc"));
    assert!(!str_less("b", "abc"));
    assert!(!str_less("same", "same"));
}

#[test]
fn finds_text_by_characters() {
    assert_eq!(find_text("表a```sql x", "```sql"), Some(2));
    assert_eq!(find_text("abc", "abcd"), None);
    assert_eq!(find_text("abab", "ab"), Some(0));
    assert_eq!(find_text("xyz", ""), Some(0));
    assert_eq!(find_text("xyz", "q"), None);
}
