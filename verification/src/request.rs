//! The rules of one request to the management API: which path and method are
//! accepted, which URL is called, and what a response is turned into.
use vstd::prelude::*;

use crate::connection::Connection;
use crate::messages::{
    invalid_api_path_message, invalid_api_path_text, invalid_method_message,
    invalid_method_text, request_failed_message, request_failed_text,
};
use crate::text::{starts_with_char, strip_trailing_char, trim_end_char};

verus! {

/// An HTTP method, as `reqwest` re-exports it from `http`.
#[verifier::external_type_specification]
#[verifier::external_body]
pub struct ExMethod(reqwest::Method);

/// A JSON value of `serde_json`.
#[verifier::external_type_specification]
#[verifier::external_body]
pub struct ExValue(serde_json::Value);

/// A path is accepted when it starts with `/` but not with `//`.
pub open spec fn api_path_accepted(path: Seq<char>) -> bool {
    path.len() > 0 && path[0] == '/' && !(path.len() > 1 && path[1] == '/')
}

/// A byte that may stand in an HTTP token (RFC 9110 `tchar`).
pub open spec fn is_token_byte(b: u8) -> bool {
    // digits, upper-case and lower-case ASCII letters
    ||| (48 <= b && b <= 57)
    ||| (65 <= b && b <= 90)
    ||| (97 <= b && b <= 122)
    // ! # $ % & '
    ||| b == 33 || (35 <= b && b <= 39)
    // * + - .
    ||| b == 42 || b == 43 || b == 45 || b == 46
    // ^ _ ` | ~
    ||| b == 94 || b == 95 || b == 96 || b == 124 || b == 126
}

/// A non-empty sequence of token bytes: what `http::Method::from_bytes` accepts.
pub open spec fn is_http_token(bytes: Seq<u8>) -> bool {
    bytes.len() > 0 && forall|i: int| 0 <= i < bytes.len() ==> is_token_byte(#[trigger] bytes[i])
}

/// The method that `http::Method::from_bytes` makes of an accepted token.
pub uninterp spec fn http_method(token: Seq<u8>) -> reqwest::Method;

/// Calls `reqwest::Method::from_bytes` on the UTF-8 bytes of `method`. As its
/// source shows, it accepts exactly the non-empty sequences of token bytes;
/// the method it then returns is named by [`http_method`].
#[verifier::external_body]
fn parse_method(method: &str) -> (res: Option<reqwest::Method>)
    ensures
        match res {
            Some(m) => is_http_token(vstd::utf8::encode_utf8(method@)) && m == http_method(vstd::utf8::encode_utf8(method@)),
            None => !is_http_token(vstd::utf8::encode_utf8(method@)),
        },
{
    reqwest::Method::from_bytes(method.as_bytes()).ok()
}

/// A request ready to be sent.
pub struct PreparedRequest {
    pub method: reqwest::Method,
    pub url: String,
    pub bearer_token: String,
}

/// The URL that a request for `path` is sent to: the base URL without its
/// trailing slashes, followed by the path.
pub open spec fn api_url(base_url: Seq<char>, path: Seq<char>) -> Seq<char> {
    trim_end_char(base_url, '/') + path
}

/// What [`prepare_request`] gives for a connection, method and path: the
/// path is checked first, then the method; the bearer token is the
/// connection's management key.
pub open spec fn prepare_request_result(
    connection: Connection,
    method: Seq<char>,
    path: Seq<char>,
    res: Result<PreparedRequest, String>,
) -> bool {
    &&& !api_path_accepted(path) ==> (res matches Err(m) && m@ == invalid_api_path_text())
    &&& api_path_accepted(path) && !is_http_token(vstd::utf8::encode_utf8(method)) ==> (
    res matches Err(m) && m@ == invalid_method_text())
    &&& api_path_accepted(path) && is_http_token(vstd::utf8::encode_utf8(method)) ==> (
    res matches Ok(r) && r.method == http_method(vstd::utf8::encode_utf8(method)) && r.url@
        == api_url(connection.base_url@, path) && r.bearer_token@ == connection.management_key@)
}

/// Checks the path and the method of a request and builds its URL. The path
/// is checked first; the bearer token is the connection's management key.
pub fn prepare_request(connection: &Connection, method: &str, path: &str) -> (res: Result<
    PreparedRequest,
    String,
>)
    ensures
        prepare_request_result(*connection, method@, path@, res),
{
    let bad_path = !starts_with_char(path, '/') || (path.unicode_len() > 1 && path.get_char(1)
        == '/');
    if bad_path {
        return Err(invalid_api_path_message());
    }
    let parsed = parse_method(method);
    match parsed {
        None => Err(invalid_method_message()),
        Some(m) => {
            let base = strip_trailing_char(connection.base_url.as_str(), '/');
            let url = base.to_owned().concat(path);
            Ok(PreparedRequest { method: m, url, bearer_token: connection.management_key.clone() })
        },
    }
}

/// What `serde_json::from_str::<serde_json::Value>` makes of `text`, `None`
/// where it refuses it.
pub uninterp spec fn json_parse(text: Seq<char>) -> Option<serde_json::Value>;

/// What `serde_json::Value::get` finds under `key`: the member of an object,
/// `None` for a missing member or a value that is not an object.
pub uninterp spec fn json_get(value: serde_json::Value, key: Seq<char>) -> Option<serde_json::Value>;

/// What `serde_json::Value::as_str` gives: the text of a JSON string, `None`
/// for any other value.
pub uninterp spec fn json_as_str(value: serde_json::Value) -> Option<Seq<char>>;

/// The JSON object `{"message": text}`.
pub uninterp spec fn json_message_object(text: Seq<char>) -> serde_json::Value;

/// Calls `serde_json::from_str::<serde_json::Value>`; the outcome is the one
/// named by [`json_parse`] for this text.
#[verifier::external_body]
fn parse_json(text: &str) -> (res: Option<serde_json::Value>)
    ensures
        res == json_parse(text@),
{
    serde_json::from_str::<serde_json::Value>(text).ok()
}

/// Calls `serde_json::Value::get` with a string key; the outcome is the one
/// named by [`json_get`].
#[verifier::external_body]
fn get_member(value: &serde_json::Value, key: &str) -> (res: Option<serde_json::Value>)
    ensures
        res == json_get(*value, key@),
{
    value.get(key).cloned()
}

/// Calls `serde_json::Value::as_str`; the outcome is the one named by
/// [`json_as_str`].
#[verifier::external_body]
fn string_of(value: &serde_json::Value) -> (res: Option<String>)
    ensures
        res.deep_view() == json_as_str(*value),
{
    value.as_str().map(|s| s.to_string())
}

/// Builds the object `{"message": text}` with the `FromIterator` impl of
/// `serde_json::Value`, which collects key-value pairs into a
/// `Value::Object`. As `Value::get` and `Value::as_str` read such an object,
/// its `message` member is the string `text` and it has no other member.
#[verifier::external_body]
fn message_object(text: &str) -> (res: serde_json::Value)
    ensures
        res == json_message_object(text@),
        json_get(res, "message"@) is Some && json_as_str(json_get(res, "message"@)->0) == Some(
            text@,
        ),
        forall|k: Seq<char>| #[trigger] json_get(res, k) is Some ==> k == "message"@,
{
    <serde_json::Value as std::iter::FromIterator<(&str, &str)>>::from_iter([("message", text)])
}

/// A status code in `200..=299`, as `http::StatusCode::is_success` tests it.
pub open spec fn is_success_status(status: u16) -> bool {
    200 <= status && status <= 299
}

/// The text of a single decimal digit.
pub open spec fn digit_text(d: nat) -> Seq<char> {
    if d == 0 {
        "0"@
    } else if d == 1 {
        "1"@
    } else if d == 2 {
        "2"@
    } else if d == 3 {
        "3"@
    } else if d == 4 {
        "4"@
    } else if d == 5 {
        "5"@
    } else if d == 6 {
        "6"@
    } else if d == 7 {
        "7"@
    } else if d == 8 {
        "8"@
    } else {
        "9"@
    }
}

/// The decimal notation of `n`, without leading zeros.
pub open spec fn decimal_text(n: nat) -> Seq<char>
    decreases n,
{
    if n < 10 {
        digit_text(n)
    } else {
        decimal_text(n / 10) + digit_text(n % 10)
    }
}

fn digit_string(d: u16) -> (res: String)
    requires
        d < 10,
    ensures
        res@ == digit_text(d as nat),
{
    if d == 0 {
        String::from_str("0")
    } else if d == 1 {
        String::from_str("1")
    } else if d == 2 {
        String::from_str("2")
    } else if d == 3 {
        String::from_str("3")
    } else if d == 4 {
        String::from_str("4")
    } else if d == 5 {
        String::from_str("5")
    } else if d == 6 {
        String::from_str("6")
    } else if d == 7 {
        String::from_str("7")
    } else if d == 8 {
        String::from_str("8")
    } else {
        String::from_str("9")
    }
}

/// The decimal notation of `n`.
pub fn decimal_string(n: u16) -> (res: String)
    ensures
        res@ == decimal_text(n as nat),
    decreases n,
{
    if n < 10 {
        digit_string(n)
    } else {
        let head = decimal_string(n / 10);
        let last = digit_string(n % 10);
        head.concat(last.as_str())
    }
}

/// The text that a failed response's member reads to: the `message` member
/// when it is present, else the `error` member; its text when it is a string,
/// else `CPA request failed`.
pub open spec fn error_member_text(
    message: Option<Option<Seq<char>>>,
    error: Option<Option<Seq<char>>>,
) -> Seq<char> {
    let chosen = match message {
        Some(m) => Some(m),
        None => error,
    };
    match chosen {
        Some(Some(t)) => t,
        _ => request_failed_text(),
    }
}

/// The error text of a failed response: the member text followed by
/// ` (HTTP <status>)`.
pub open spec fn failed_response_text(
    message: Option<Option<Seq<char>>>,
    error: Option<Option<Seq<char>>>,
    status: u16,
) -> Seq<char> {
    error_member_text(message, error) + " (HTTP "@ + decimal_text(status as nat) + ")"@
}

/// The view of a looked-up member: `None` when it is missing, else the text
/// of the member when it is a JSON string.
pub open spec fn member_view(member: Option<Option<String>>) -> Option<Option<Seq<char>>> {
    match member {
        Some(t) => Some(t.deep_view()),
        None => None,
    }
}

/// Builds the error text of a failed response from what was found under
/// `message` and `error` (outer `None`: no such member; inner `None`: a member
/// that is not a string).
pub fn failed_response_message(
    message: Option<Option<String>>,
    error: Option<Option<String>>,
    status: u16,
) -> (res: String)
    ensures
        res@ == failed_response_text(member_view(message), member_view(error), status),
{
    let chosen = match message {
        Some(m) => Some(m),
        None => error,
    };
    let text = match chosen {
        Some(Some(t)) => t,
        _ => request_failed_message(),
    };
    text.concat(" (HTTP ").concat(decimal_string(status).as_str()).concat(")")
}

/// What a lookup of `key` in `value` finds, as a member view.
pub open spec fn looked_up(value: serde_json::Value, key: Seq<char>) -> Option<Option<Seq<char>>> {
    match json_get(value, key) {
        Some(m) => Some(json_as_str(m)),
        None => None,
    }
}

fn look_up(value: &serde_json::Value, key: &str) -> (res: Option<Option<String>>)
    ensures
        member_view(res) == looked_up(*value, key@),
{
    match get_member(value, key) {
        Some(m) => Some(string_of(&m)),
        None => None,
    }
}

/// The JSON value that a response body reads to: the parsed body, or
/// `{"message": body}` when the body is not JSON.
pub open spec fn response_value(text: Seq<char>) -> serde_json::Value {
    match json_parse(text) {
        Some(v) => v,
        None => json_message_object(text),
    }
}

/// What [`response_outcome`] gives for a status and body.
pub open spec fn response_result(status: u16, text: Seq<char>, res: Result<serde_json::Value, String>) -> bool {
    &&& is_success_status(status) ==> res == Ok::<serde_json::Value, String>(response_value(text))
    &&& !is_success_status(status) ==> (res matches Err(m) && m@ == failed_response_text(
        looked_up(response_value(text), "message"@),
        looked_up(response_value(text), "error"@),
        status,
    ))
}

/// Turns a response into the command's outcome: the body's JSON value for a
/// success status, else an error text built from its `message` or `error`
/// member and the status.
pub fn response_outcome(status: u16, text: &str) -> (res: Result<serde_json::Value, String>)
    ensures
        response_result(status, text@, res),
{
    let value = match parse_json(text) {
        Some(v) => v,
        None => message_object(text),
    };
    if !(200 <= status && status <= 299) {
        let message_key = String::from_str("message");
        let error_key = String::from_str("error");
        let message = look_up(&value, message_key.as_str());
        let error = look_up(&value, error_key.as_str());
        return Err(failed_response_message(message, error, status));
    }
    Ok(value)
}

/// A path is refused exactly when it does not start with `/` or starts with
/// `//`. Any other path, whatever follows its first character, passes the
/// path check, and with a valid method it is appended to the base URL
/// without its trailing slashes.
pub proof fn lemma_path_rule(
    connection: Connection,
    method: Seq<char>,
    path: Seq<char>,
    res: Result<PreparedRequest, String>,
)
    requires
        prepare_request_result(connection, method, path, res),
    ensures
        path.len() == 0 || path[0] != '/' || (path.len() > 1 && path[1] == '/') ==> (res matches Err(
            m,
        ) && m@ == invalid_api_path_text()),
        path.len() > 0 && path[0] == '/' && !(path.len() > 1 && path[1] == '/') ==> !(res matches Err(
            m,
        ) && m@ == invalid_api_path_text()),
        path.len() > 0 && path[0] == '/' && !(path.len() > 1 && path[1] == '/') && is_http_token(
            vstd::utf8::encode_utf8(method),
        ) ==> (res matches Ok(r) && r.url@ == trim_end_char(connection.base_url@, '/') + path
            && r.url@.skip(r.url@.len() - path.len()) == path),
{
    reveal_strlit("invalid CPA API path");
    reveal_strlit("invalid HTTP method");
    if path.len() > 0 && path[0] == '/' && !(path.len() > 1 && path[1] == '/') {
        if let Err(m) = res {
            if m@ == invalid_api_path_text() {
                assert(invalid_api_path_text()[8] != invalid_method_text()[8]);
            }
        }
        if let Ok(r) = res {
            assert(r.url@.skip(r.url@.len() - path.len()) =~= path);
        }
    }
}

/// Every status in `200..=299` gives the body's value, and every other status
/// gives an error.
pub proof fn lemma_success_statuses(status: u16, text: Seq<char>, res: Result<serde_json::Value, String>)
    requires
        response_result(status, text, res),
    ensures
        200 <= status && status <= 299 ==> res == Ok::<serde_json::Value, String>(response_value(text)),
        status < 200 || status > 299 ==> res is Err,
{
}

} // verus!
