use cpa_route_control::redact::redact_secret;

#[test]
fn redacts_management_key_from_errors() {
    let message = redact_secret("request with top-secret failed".into(), "top-secret");
    assert_eq!(message, "request with [REDACTED] failed");
}

#[test]
fn empty_secret_changes_nothing() {
    assert_eq!(redact_secret("message with key".into(), ""), "message with key");
}

#[test]
fn message_without_secret_is_unchanged() {
    assert_eq!(redact_secret("connection refused".into(), "k3y"), "connection refused");
}

#[test]
fn every_occurrence_is_redacted() {
    let out = redact_secret("k3y and k3yk3y".into(), "k3y");
    assert_eq!(out, "[REDACTED] and [REDACTED][REDACTED]");
    assert!(!out.contains("k3y"));
}

#[test]
fn secret_inside_marker_can_reappear() {
    // "RED" shares characters with the marker, so it shows up again.
    assert_eq!(redact_secret("RED".into(), "RED"), "[REDACTED]");
}
