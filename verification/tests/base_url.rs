use cpa_route_control::base_url::{check_parsed_base_url, normalize_base_url, ParsedUrl};

const EMPTY: &str = "CPA_MANAGEMENT_URL 不能为空";
const INVALID: &str = "CPA_MANAGEMENT_URL 必须是合法的 HTTP 或 HTTPS 地址";
const QUERY: &str = "CPA_MANAGEMENT_URL 不能包含查询参数或片段";

#[test]
fn normalizes_whitespace_and_trailing_slashes() {
    assert_eq!(
        normalize_base_url("  http://127.0.0.1:8317/v0/management///\n").unwrap(),
        "http://127.0.0.1:8317/v0/management"
    );
    assert_eq!(normalize_base_url("HTTPS://Example.com").unwrap(), "HTTPS://Example.com");
}

#[test]
fn rejects_empty_values() {
    assert_eq!(normalize_base_url("").unwrap_err(), EMPTY);
    assert_eq!(normalize_base_url("  / / ").unwrap_err(), INVALID);
    assert_eq!(normalize_base_url(" /// ").unwrap_err(), EMPTY);
}

#[test]
fn rejects_other_schemes_and_missing_hosts() {
    assert_eq!(normalize_base_url("ftp://example.com").unwrap_err(), INVALID);
    assert_eq!(normalize_base_url("example.com").unwrap_err(), INVALID);
    assert_eq!(normalize_base_url("mailto:a@b.c").unwrap_err(), INVALID);
}

#[test]
fn rejects_query_and_fragment() {
    assert_eq!(normalize_base_url("http://h/x?a=1").unwrap_err(), QUERY);
    assert_eq!(normalize_base_url("http://h/x#top").unwrap_err(), QUERY);
}

#[test]
fn normalizing_twice_changes_nothing() {
    let once = normalize_base_url(" https://cpa.example.com/v0/management/ ").unwrap();
    assert_eq!(normalize_base_url(&once).unwrap(), once);
}

#[test]
fn whitespace_before_trailing_slash_is_kept_once() {
    // The law of idempotence leaves out results that end in whitespace.
    let once = normalize_base_url("http://a/ /").unwrap();
    assert_eq!(once, "http://a/ ");
    assert_eq!(normalize_base_url(&once).unwrap(), "http://a");
}

fn parsed(scheme: &str, host: Option<&str>, query: Option<&str>, fragment: Option<&str>) -> Option<ParsedUrl> {
    Some(ParsedUrl {
        scheme: scheme.to_string(),
        host: host.map(|h| h.to_string()),
        query: query.map(|q| q.to_string()),
        fragment: fragment.map(|f| f.to_string()),
    })
}

#[test]
fn verdict_on_parsed_urls() {
    assert_eq!(check_parsed_base_url(&None).unwrap_err(), INVALID);
    assert_eq!(check_parsed_base_url(&parsed("ftp", Some("h"), None, None)).unwrap_err(), INVALID);
    assert_eq!(check_parsed_base_url(&parsed("http", None, None, None)).unwrap_err(), INVALID);
    assert_eq!(check_parsed_base_url(&parsed("https", Some("h"), Some(""), None)).unwrap_err(), QUERY);
    assert_eq!(check_parsed_base_url(&parsed("http", Some("h"), None, Some("f"))).unwrap_err(), QUERY);
    assert!(check_parsed_base_url(&parsed("https", Some("h"), None, None)).is_ok());
}
