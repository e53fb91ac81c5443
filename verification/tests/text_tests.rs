use clos_monitor::text::{
    ascii_lower, before_first, contains, eq_ignore_ascii_case, html_escape, i128_text, join,
    lines_non_empty, lines_of, parse_decimal, shell_escape, split_on, split_trimmed_non_empty, split_words,
    starts_with, tail_chars, take_chars, trim, trim_end_matches, trim_start_matches, u64_text,
};

fn strings(v: &[&str]) -> Vec<String> {
    v.iter().map(|s| s.to_string()).collect()
}

#[test]
fn trim_matches_std() {
    for s in ["  a b  ", "\t\n x\r\n", "", "   ", "\u{a0}nbsp\u{3000}", "\u{2028}z\u{85}"] {
        assert_eq!(trim(s), s.trim());
    }
}

#[test]
fn case_helpers() {
    assert_eq!(ascii_lower("HeLLo-Ä"), "hello-Ä");
    assert!(eq_ignore_ascii_case("TRUE", "true"));
    assert!(!eq_ignore_ascii_case("TRUE", "tru"));
    assert!(!eq_ignore_ascii_case("Ä", "ä"));
}

#[test]
fn prefixes_and_substrings() {
    assert!(starts_with("/status", "/"));
    assert!(starts_with("abc", ""));
    assert!(!starts_with("ab", "abc"));
    assert!(contains("app_db_1", "_db"));
    assert!(!contains("app", "_db"));
    assert!(contains("x", ""));
}

#[test]
fn trim_matches_repeat() {
    assert_eq!(trim_start_matches("///a/b", "/"), "a/b");
    assert_eq!(trim_end_matches("a/b///", "/"), "a/b");
    assert_eq!(trim_start_matches("abab-x", "ab"), "-x");
    assert_eq!(trim_end_matches("x", "x"), "");
}

#[test]
fn splitting_like_std() {
    for (s, c) in [("a,b,,c", ','), ("", ','), (",", ','), ("abc", '@')] {
        let expected: Vec<String> = s.split(c).map(|p| p.to_string()).collect();
        assert_eq!(split_on(s, c), expected);
    }
    assert_eq!(before_first("/help@bot@x", '@'), "/help");
    assert_eq!(before_first("plain", '@'), "plain");
}

#[test]
fn words_like_split_whitespace() {
    for s in ["  /ip_ban   1.2.3.4\tpw \n", "", "   ", "one"] {
        let expected: Vec<String> = s.split_whitespace().map(|p| p.to_string()).collect();
        assert_eq!(split_words(s), expected);
    }
}

#[test]
fn joining() {
    assert_eq!(join(&strings(&["a", "b", "c"]), ", "), "a, b, c");
    assert_eq!(join(&strings(&[]), ", "), "");
    assert_eq!(join(&strings(&["only"]), "\n"), "only");
}

#[test]
fn csv_pieces() {
    assert_eq!(split_trimmed_non_empty(" a , ,b,, c ", ','), strings(&["a", "b", "c"]));
    assert!(split_trimmed_non_empty("", ',').is_empty());
}

#[test]
fn non_empty_lines_like_std() {
    for s in ["a\n\nb\r\n", "x\r\n\r\ny", "", "\n\n", "last\r"] {
        let expected: Vec<String> =
            s.lines().filter(|l| !l.is_empty()).map(|l| l.to_string()).collect();
        assert_eq!(lines_non_empty(s), expected);
    }
}

#[test]
fn char_windows() {
    assert_eq!(take_chars("héllo", 2), "hé");
    assert_eq!(take_chars("ab", 5), "ab");
    assert_eq!(tail_chars("héllo", 3), "llo");
    assert_eq!(tail_chars("ab", 5), "ab");
    assert_eq!(tail_chars("ab", 0), "");
}

#[test]
fn html_escaping() {
    assert_eq!(html_escape("<b>a & b</b>"), "&lt;b&gt;a &amp; b&lt;/b&gt;");
    assert_eq!(html_escape("plain \"quotes\""), "plain \"quotes\"");
}

#[test]
fn shell_quoting() {
    assert_eq!(shell_escape("kylit"), "'kylit'");
    assert_eq!(shell_escape("o'brien"), "'o'\"'\"'brien'");
    assert_eq!(shell_escape(""), "''");
}

#[test]
fn decimal_parsing_like_from_str() {
    assert_eq!(parse_decimal("300", u64::MAX), Some(300));
    assert_eq!(parse_decimal("+7", u64::MAX), Some(7));
    assert_eq!(parse_decimal("007", u64::MAX), Some(7));
    assert_eq!(parse_decimal("", u64::MAX), None);
    assert_eq!(parse_decimal("+", u64::MAX), None);
    assert_eq!(parse_decimal("-1", u64::MAX), None);
    assert_eq!(parse_decimal(" 1", u64::MAX), None);
    assert_eq!(parse_decimal("1x", u64::MAX), None);
    assert_eq!(parse_decimal("18446744073709551615", u64::MAX), Some(u64::MAX));
    assert_eq!(parse_decimal("18446744073709551616", u64::MAX), None);
    assert_eq!(parse_decimal("65535", u16::MAX as u64), Some(65535));
    assert_eq!(parse_decimal("65536", u16::MAX as u64), None);
}

#[test]
fn decimal_text() {
    assert_eq!(u64_text(0), "0");
    assert_eq!(u64_text(1234567890), "1234567890");
    assert_eq!(u64_text(u64::MAX), u64::MAX.to_string());
    assert_eq!(i128_text(-100123), "-100123");
    assert_eq!(i128_text(0), "0");
    assert_eq!(i128_text(i64::MIN as i128), i64::MIN.to_string());
    assert_eq!(i128_text(u64::MAX as i128), u64::MAX.to_string());
}

#[test]
fn lines_like_std() {
    for s in ["a\n\nb\r\n", "x\r\n\r\ny", "", "\n\n", "last\r", "one", "a\n", "\r\n"] {
        let expected: Vec<String> = s.lines().map(|l| l.to_string()).collect();
        assert_eq!(lines_of(s), expected);
    }
}

#[test]
fn html_escape_round_trip_examples() {
    for s in ["a<b>&c", "&lt;", "plain", "", "<<&&>>", "&amp;lt;"] {
        let e = html_escape(s);
        assert!(!e.contains('<') && !e.contains('>'));
        assert_eq!(e.replace("&lt;", "<").replace("&gt;", ">").replace("&amp;", "&"), s);
    }
    assert_eq!(html_escape("a<b>&c"), "a&lt;b&gt;&amp;c");
}
