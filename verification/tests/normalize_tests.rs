use urlprobe::normalize::normalize;
use urlprobe::text::eq_ignore_case;
use urlprobe::text::find_sub;
use urlprobe::text::is_space;
use urlprobe::text::starts_with;
use urlprobe::text::to_lower;
use urlprobe::text::trim_str;

#[test]
fn normalize_bare_host_yields_both_schemes_in_order() {
    let r = normalize("example.com");
    assert_eq!(r.len(), 2);
    assert_eq!(r[0], "http://example.com");
    assert_eq!(r[1], "https://example.com");
}

#[test]
fn normalize_trims_before_expanding() {
    let r = normalize("  example.com\t\n");
    assert_eq!(r.len(), 2);
    assert_eq!(r[0], "http://example.com");
    assert_eq!(r[1], "https://example.com");
}

#[test]
fn normalize_keeps_explicit_http_scheme_alone() {
    let r = normalize("http://example.com/path");
    assert_eq!(r, vec!["http://example.com/path".to_string()]);
}

#[test]
fn normalize_keeps_explicit_https_scheme_alone() {
    let r = normalize(" https://example.com ");
    assert_eq!(r, vec!["https://example.com".to_string()]);
}

#[test]
fn normalize_scheme_check_is_case_sensitive() {
    let r = normalize("HTTP://example.com");
    assert_eq!(r.len(), 2);
    assert_eq!(r[0], "http://HTTP://example.com");
    assert_eq!(r[1], "https://HTTP://example.com");
}

#[test]
fn normalize_empty_input_yields_nothing() {
    assert_eq!(normalize("").len(), 0);
    assert_eq!(normalize("   \t  ").len(), 0);
    assert_eq!(normalize("\u{00A0}\u{3000}").len(), 0);
}

#[test]
fn trim_removes_unicode_whitespace() {
    assert_eq!(trim_str("  a b  "), "a b");
    assert_eq!(trim_str("\u{2028}x\u{205F}"), "x");
    assert_eq!(trim_str(""), "");
    assert_eq!(trim_str("abc"), "abc");
}

#[test]
fn whitespace_predicate_matches_std() {
    for c in ['\t', '\n', ' ', '\u{00A0}', '\u{2003}', '\u{3000}', 'a', '0', '\u{200B}'] {
        assert_eq!(is_space(c), c.is_whitespace());
    }
}

#[test]
fn find_sub_returns_first_occurrence() {
    assert_eq!(find_sub("abcabc", "bc"), Some(1));
    assert_eq!(find_sub("abc", "abcd"), None);
    assert_eq!(find_sub("abc", ""), Some(0));
    assert_eq!(find_sub("abc", "z"), None);
}

#[test]
fn prefix_and_case_helpers() {
    assert!(starts_with("http://x", "http://"));
    assert!(!starts_with("htt", "http://"));
    assert_eq!(to_lower('A'), 'a');
    assert_eq!(to_lower('z'), 'z');
    assert_eq!(to_lower('-'), '-');
    assert!(eq_ignore_case("X-Powered-By", "x-powered-by"));
    assert!(!eq_ignore_case("server", "servers"));
}
