use urlprobe::extract::extract_banner;
use urlprobe::extract::extract_title;
use urlprobe::headers::Header;
use urlprobe::headers::HeaderValue;
use urlprobe::headers::header_text;

fn text_header(name: &str, value: &str) -> Header {
    Header { name: name.to_string(), value: HeaderValue::Text(value.to_string()) }
}

#[test]
fn title_between_tags_is_trimmed() {
    assert_eq!(extract_title("<html><title>  Hi there \n</title></html>"), "Hi there");
}

#[test]
fn title_uses_first_occurrences() {
    assert_eq!(extract_title("<title>one</title><title>two</title>"), "one");
}

#[test]
fn title_missing_tags_yield_sentinel() {
    assert_eq!(extract_title("no tags at all"), "no title");
    assert_eq!(extract_title("<title>never closed"), "no title");
    assert_eq!(extract_title("never opened</title>"), "no title");
    assert_eq!(extract_title(""), "no title");
}

#[test]
fn title_close_before_open_yields_sentinel() {
    assert_eq!(extract_title("</title>text<title>"), "no title");
}

#[test]
fn title_attributes_are_not_matched() {
    assert_eq!(extract_title("<title class=\"x\">styled</title>"), "no title");
}

#[test]
fn title_empty_between_tags() {
    assert_eq!(extract_title("<title></title>"), "");
}

#[test]
fn banner_empty_headers_yield_unknown() {
    assert_eq!(extract_banner(&Vec::new()), "unknown");
}

#[test]
fn banner_unrelated_headers_yield_unknown() {
    let hs = vec![text_header("content-type", "text/html"), text_header("date", "today")];
    assert_eq!(extract_banner(&hs), "unknown");
}

#[test]
fn banner_server_only() {
    let hs = vec![text_header("server", "nginx")];
    assert_eq!(extract_banner(&hs), "Server: nginx");
}

#[test]
fn banner_joins_parts_in_fixed_order() {
    let hs = vec![
        text_header("x-frame-options", "DENY"),
        text_header("server", "nginx"),
        text_header("x-powered-by", "PHP/8.1"),
    ];
    assert_eq!(extract_banner(&hs), "Server: nginx | x-powered-by: PHP/8.1 | x-frame-options: DENY");
}

#[test]
fn banner_name_matching_is_case_insensitive() {
    let hs = vec![text_header("SeRvEr", "Apache")];
    assert_eq!(extract_banner(&hs), "Server: Apache");
}

#[test]
fn banner_skips_opaque_values() {
    let hs = vec![
        Header { name: "server".to_string(), value: HeaderValue::Opaque },
        text_header("x-aspnet-version", "4.0"),
    ];
    assert_eq!(extract_banner(&hs), "x-aspnet-version: 4.0");
}

#[test]
fn header_lookup_first_occurrence_wins() {
    let hs = vec![text_header("server", "first"), text_header("Server", "second")];
    assert_eq!(header_text(&hs, "SERVER"), Some("first".to_string()));
    assert_eq!(header_text(&hs, "absent"), None);
}
