use urlprobe::config::Config;
use urlprobe::config::plan_request;
use urlprobe::headers::Header;
use urlprobe::headers::HeaderValue;
use urlprobe::probe::CheckResult;
use urlprobe::probe::FetchOutcome;
use urlprobe::probe::ResponseHead;
use urlprobe::probe::check_url;
use urlprobe::probe::redirect_of;

fn text_header(name: &str, value: &str) -> Header {
    Header { name: name.to_string(), value: HeaderValue::Text(value.to_string()) }
}

fn same_fields(a: &CheckResult, b: &CheckResult) -> bool {
    a.original_url == b.original_url && a.original_input == b.original_input
        && a.status_code == b.status_code && a.title == b.title && a.banner == b.banner
        && a.content_length == b.content_length && a.redirect_url == b.redirect_url
        && a.error == b.error
}

#[test]
fn client_build_failure_record() {
    let r = check_url(
        "http://x".to_string(),
        "x".to_string(),
        FetchOutcome::ClientBuildFailed("bad user agent".to_string()),
    );
    assert_eq!(r.original_url, "http://x");
    assert_eq!(r.original_input, "x");
    assert_eq!(r.status_code, 0);
    assert_eq!(r.title, "client build failed");
    assert_eq!(r.banner, "");
    assert_eq!(r.content_length, 0);
    assert_eq!(r.redirect_url, "");
    assert_eq!(r.error, Some("client build failed: bad user agent".to_string()));
}

#[test]
fn request_failure_record() {
    let r = check_url(
        "https://example.com".to_string(),
        "example.com".to_string(),
        FetchOutcome::RequestFailed("connection refused".to_string()),
    );
    assert_eq!(r.status_code, 0);
    assert_eq!(r.title, "request failed");
    assert_eq!(r.error, Some("request failed: connection refused".to_string()));
    assert_eq!(r.content_length, 0);
}

#[test]
fn body_read_failure_keeps_head_fields() {
    let head = ResponseHead {
        status_code: 200,
        headers: vec![text_header("server", "nginx"), text_header("location", "/next")],
    };
    let r = check_url(
        "http://example.com".to_string(),
        "example.com".to_string(),
        FetchOutcome::BodyReadFailed(head, "connection reset mid-body".to_string()),
    );
    assert_eq!(r.status_code, 200);
    assert!(r.error.is_some());
    assert_eq!(r.content_length, 0);
    assert_eq!(r.title, "content read failed");
    assert_eq!(r.banner, "Server: nginx");
    assert_eq!(r.redirect_url, "/next");
}

#[test]
fn full_success_record() {
    let head = ResponseHead {
        status_code: 301,
        headers: vec![text_header("Location", "https://example.com/"), text_header("server", "test")],
    };
    let r = check_url(
        "http://example.com".to_string(),
        "example.com".to_string(),
        FetchOutcome::Fetched(head, "<html><title> Hi </title></html>".to_string()),
    );
    assert_eq!(r.status_code, 301);
    assert_eq!(r.title, "Hi");
    assert_eq!(r.banner, "Server: test");
    assert_eq!(r.redirect_url, "https://example.com/");
    assert_eq!(r.content_length, "<html><title> Hi </title></html>".len());
    assert_eq!(r.error, None);
}

#[test]
fn content_length_counts_bytes_not_chars() {
    let body = "caf\u{00e9}".to_string();
    assert_eq!(body.len(), 5);
    let head = ResponseHead { status_code: 200, headers: Vec::new() };
    let r = check_url("http://x".to_string(), "x".to_string(), FetchOutcome::Fetched(head, body));
    assert_eq!(r.content_length, 5);
}

#[test]
fn probe_is_a_pure_mapping() {
    let make = || {
        check_url(
            "http://example.com".to_string(),
            "example.com".to_string(),
            FetchOutcome::Fetched(
                ResponseHead { status_code: 200, headers: vec![text_header("server", "s")] },
                "<title>t</title>".to_string(),
            ),
        )
    };
    let r1 = make();
    let r2 = make();
    assert!(same_fields(&r1, &r2));
}

#[test]
fn redirect_defaults_to_empty() {
    assert_eq!(redirect_of(&Vec::new()), "");
    let hs = vec![Header { name: "location".to_string(), value: HeaderValue::Opaque }];
    assert_eq!(redirect_of(&hs), "");
}

#[test]
fn plan_applies_defaults() {
    let config = Config { user_agent: None, cookie: None, timeout: None, headers: None };
    let plan = plan_request("http://example.com".to_string(), &config);
    assert_eq!(plan.url, "http://example.com");
    assert_eq!(plan.timeout_seconds, 30);
    assert_eq!(plan.user_agent, "Mozilla/5.0 (Windows NT 10.0; Win64; x64) AppleWebKit/537.36");
    assert_eq!(plan.cookie, None);
    assert!(plan.headers.is_empty());
}

#[test]
fn plan_keeps_explicit_settings() {
    let config = Config {
        user_agent: Some("probe/1.0".to_string()),
        cookie: Some("k=v".to_string()),
        timeout: Some(5),
        headers: Some(vec![("X-Test".to_string(), "1".to_string())]),
    };
    let plan = plan_request("https://example.com".to_string(), &config);
    assert_eq!(plan.timeout_seconds, 5);
    assert_eq!(plan.user_agent, "probe/1.0");
    assert_eq!(plan.cookie, Some("k=v".to_string()));
    assert_eq!(plan.headers, vec![("X-Test".to_string(), "1".to_string())]);
}
