use cpa_route_control::connection::Connection;
use cpa_route_control::request::{
    decimal_string, failed_response_message, prepare_request, response_outcome,
};

fn conn() -> Connection {
    Connection {
        base_url: "http://127.0.0.1:8317/v0/management/".into(),
        management_key: "secret".into(),
        delete_saved_credential_on_disconnect: false,
    }
}

#[test]
fn rejects_bad_paths_before_methods() {
    assert_eq!(prepare_request(&conn(), "GET", "config").err().unwrap(), "invalid CPA API path");
    assert_eq!(prepare_request(&conn(), "GET", "//evil").err().unwrap(), "invalid CPA API path");
    assert_eq!(prepare_request(&conn(), "G T", "").err().unwrap(), "invalid CPA API path");
    assert_eq!(prepare_request(&conn(), "G T", "/config").err().unwrap(), "invalid HTTP method");
    assert_eq!(prepare_request(&conn(), "", "/config").err().unwrap(), "invalid HTTP method");
    assert_eq!(prepare_request(&conn(), "GÉT", "/config").err().unwrap(), "invalid HTTP method");
}

#[test]
fn builds_request() {
    let r = prepare_request(&conn(), "PATCH", "/auth-files/fields").ok().unwrap();
    assert_eq!(r.method, reqwest::Method::PATCH);
    assert_eq!(r.url, "http://127.0.0.1:8317/v0/management/auth-files/fields");
    assert_eq!(r.bearer_token, "secret");
    let r = prepare_request(&conn(), "custom-verb", "/").ok().unwrap();
    assert_eq!(r.method.as_str(), "custom-verb");
    assert_eq!(r.url, "http://127.0.0.1:8317/v0/management/");
}

#[test]
fn decimal_notation() {
    assert_eq!(decimal_string(0), "0");
    assert_eq!(decimal_string(404), "404");
    assert_eq!(decimal_string(65535), "65535");
}

#[test]
fn failed_response_texts() {
    assert_eq!(failed_response_message(Some(Some("m".into())), Some(Some("e".into())), 400), "m (HTTP 400)");
    assert_eq!(failed_response_message(None, Some(Some("e".into())), 401), "e (HTTP 401)");
    assert_eq!(failed_response_message(Some(None), Some(Some("e".into())), 402), "CPA request failed (HTTP 402)");
    assert_eq!(failed_response_message(None, None, 503), "CPA request failed (HTTP 503)");
}

#[test]
fn successful_responses() {
    let v = response_outcome(200, r#"{"a":1}"#).unwrap();
    assert_eq!(v, serde_json::from_str::<serde_json::Value>(r#"{"a":1}"#).unwrap());
    let v = response_outcome(299, "plain text").unwrap();
    assert_eq!(v, serde_json::from_str::<serde_json::Value>(r#"{"message":"plain text"}"#).unwrap());
}

#[test]
fn failed_responses() {
    assert_eq!(response_outcome(404, r#"{"error":"not found"}"#).unwrap_err(), "not found (HTTP 404)");
    assert_eq!(response_outcome(401, r#"{"message":"bad key","error":"x"}"#).unwrap_err(), "bad key (HTTP 401)");
    assert_eq!(response_outcome(500, r#"{"message":5,"error":"x"}"#).unwrap_err(), "CPA request failed (HTTP 500)");
    assert_eq!(response_outcome(502, "upstream down").unwrap_err(), "upstream down (HTTP 502)");
    assert_eq!(response_outcome(300, "[1]").unwrap_err(), "CPA request failed (HTTP 300)");
    assert_eq!(response_outcome(199, "x").unwrap_err(), "x (HTTP 199)");
}
