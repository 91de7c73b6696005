use language_query::lines::{split_lines, trim};
use language_query::numbers::{parse_u32, push_decimal};
use language_query::text::{contains, find, from_chars, push_all, push_str, to_chars};

fn chars(s: &str) -> Vec<char> {
    s.chars().collect()
}

fn lines(s: &str) -> Vec<String> {
    split_lines(&chars(s)).iter().map(|l| l.iter().collect::<String>()).collect()
}

fn decimal(n: u64) -> String {
    let mut out = Vec::new();
    push_decimal(&mut out, n);
    out.into_iter().collect()
}

#[test]
fn chars_round_trip() {
    let v = to_chars("héllo\n");
    assert_eq!(v, vec!['h', 'é', 'l', 'l', 'o', '\n']);
    assert_eq!(from_chars(&v), "héllo\n");
    assert_eq!(from_chars(&Vec::new()), "");
}

#[test]
fn push_appends_in_order() {
    let mut out = chars("ab");
    push_str(&mut out, "cd");
    push_all(&mut out, &chars("ef"));
    assert_eq!(from_chars(&out), "abcdef");
}

#[test]
fn find_returns_first_occurrence() {
    assert_eq!(find(&chars("abcabc"), &chars("bc")), Some(1));
    assert_eq!(find(&chars("abcabc"), &chars("abc")), Some(0));
    assert_eq!(find(&chars("abcabc"), &chars("cab")), Some(2));
    assert_eq!(find(&chars("aaab"), &chars("aab")), Some(1));
    assert_eq!(find(&chars("abc"), &chars("abc")), Some(0));
}

#[test]
fn find_of_absent_or_longer_needle_is_none() {
    assert_eq!(find(&chars("abc"), &chars("d")), None);
    assert_eq!(find(&chars("abc"), &chars("abcd")), None);
    assert_eq!(find(&chars(""), &chars("a")), None);
}

#[test]
fn find_of_empty_needle_is_zero() {
    assert_eq!(find(&chars("abc"), &chars("")), Some(0));
    assert_eq!(find(&chars(""), &chars("")), Some(0));
}

#[test]
fn find_counts_characters_not_bytes() {
    assert_eq!(find(&chars("é = field"), &chars("field")), Some(4));
}

#[test]
fn contains_agrees_with_find() {
    assert!(contains(&chars("content modified"), &chars("modified")));
    assert!(!contains(&chars("content"), &chars("modified")));
}

#[test]
fn lines_split_like_std() {
    for text in [
        "",
        "a",
        "a\n",
        "a\nb",
        "a\n\nb\n",
        "\n",
        "\n\n",
        "a\r\nb\r\n",
        "a\rb",
        "a\r",
        "a\r\n",
        "\r\n",
        "a\r\r\nb",
        "last line\r",
    ] {
        let want: Vec<String> = text.lines().map(|l| l.to_string()).collect();
        assert_eq!(lines(text), want, "for {:?}", text);
    }
}

#[test]
fn lines_exact_values() {
    assert_eq!(lines("one\ntwo\r\nthree"), vec!["one", "two", "three"]);
    assert_eq!(lines("\n"), vec![""]);
    assert!(lines("").is_empty());
}

#[test]
fn trim_strips_both_ends_only() {
    assert_eq!(from_chars(&trim(&chars("  a b \t\n"))), "a b");
    assert_eq!(from_chars(&trim(&chars("ab"))), "ab");
    assert_eq!(from_chars(&trim(&chars(" \t "))), "");
    assert_eq!(from_chars(&trim(&chars(""))), "");
    assert_eq!(from_chars(&trim(&chars("\u{2003}x\u{a0}"))), "x");
}

#[test]
fn decimal_exact_values() {
    assert_eq!(decimal(0), "0");
    assert_eq!(decimal(7), "7");
    assert_eq!(decimal(10), "10");
    assert_eq!(decimal(4294967295), "4294967295");
    assert_eq!(decimal(u64::MAX), "18446744073709551615");
}

#[test]
fn parse_u32_reads_what_std_reads() {
    for text in [
        "0", "1", "42", "007", "+5", "4294967295", "4294967296", "99999999999999999999", "",
        "+", "-1", "-0", "1a", "a1", " 1", "1 ", "++1", "1+", "٣",
    ] {
        assert_eq!(parse_u32(&chars(text)), text.parse::<u32>().ok(), "for {:?}", text);
    }
}

#[test]
fn parse_u32_exact_values() {
    assert_eq!(parse_u32(&chars("42")), Some(42));
    assert_eq!(parse_u32(&chars("+42")), Some(42));
    assert_eq!(parse_u32(&chars("4294967295")), Some(u32::MAX));
    assert_eq!(parse_u32(&chars("4294967296")), None);
    assert_eq!(parse_u32(&chars("")), None);
}

#[test]
fn decimal_then_parse_round_trip() {
    for n in [0u32, 1, 9, 10, 99, 100, 65535, u32::MAX] {
        assert_eq!(parse_u32(&chars(&decimal(n as u64))), Some(n));
    }
}
