//! Validation and normalisation of the management base URL.
use vstd::prelude::*;

use crate::messages::{
    url_empty_message, url_empty_text, url_invalid_message, url_invalid_text, url_query_message,
    url_query_text,
};
use crate::text::{
    is_unicode_whitespace, strip_trailing_char, trim_end_char, trim_end_ws, trim_start_ws,
    trim_whitespace, trim_ws,
};

verus! {

/// The parts of a parsed URL that the validation reads.
pub struct ParsedUrl {
    pub scheme: String,
    pub host: Option<String>,
    pub query: Option<String>,
    pub fragment: Option<String>,
}

/// The value of a [`ParsedUrl`].
pub struct ParsedUrlView {
    pub scheme: Seq<char>,
    pub host: Option<Seq<char>>,
    pub query: Option<Seq<char>>,
    pub fragment: Option<Seq<char>>,
}

impl View for ParsedUrl {
    type V = ParsedUrlView;

    open spec fn view(&self) -> ParsedUrlView {
        ParsedUrlView {
            scheme: self.scheme@,
            host: self.host.deep_view(),
            query: self.query.deep_view(),
            fragment: self.fragment.deep_view(),
        }
    }
}

impl DeepView for ParsedUrl {
    type V = ParsedUrlView;

    open spec fn deep_view(&self) -> ParsedUrlView {
        self@
    }
}

/// What `url::Url::parse` (re-exported as `reqwest::Url`) makes of `input`:
/// `None` where it refuses the input, else the scheme, host, query and
/// fragment of the parsed URL.
pub uninterp spec fn url_parse_result(input: Seq<char>) -> Option<ParsedUrlView>;

/// Calls `reqwest::Url::parse` (that is `url::Url::parse`) and reads the
/// scheme, host, query and fragment of the result. The contract claims only
/// that the outcome is the one named by [`url_parse_result`] for this input,
/// which the `url` crate computes from the input alone.
#[verifier::external_body]
fn parse_url(input: &str) -> (res: Option<ParsedUrl>)
    ensures
        match res {
            Some(p) => url_parse_result(input@) == Some(p@),
            None => url_parse_result(input@) is None,
        },
{
    match reqwest::Url::parse(input) {
        Ok(url) => Some(ParsedUrl {
            scheme: url.scheme().to_string(),
            host: url.host_str().map(|h| h.to_string()),
            query: url.query().map(|q| q.to_string()),
            fragment: url.fragment().map(|f| f.to_string()),
        }),
        Err(_) => None,
    }
}

/// The verdict on a parsed base URL: it must have been parsed, use the
/// `http` or `https` scheme, name a host, and carry neither query nor fragment.
pub open spec fn base_url_verdict(parsed: Option<ParsedUrlView>) -> Result<(), Seq<char>> {
    match parsed {
        None => Err(url_invalid_text()),
        Some(p) => if !(p.scheme == "http"@ || p.scheme == "https"@) || p.host is None {
            Err(url_invalid_text())
        } else if p.query is Some || p.fragment is Some {
            Err(url_query_text())
        } else {
            Ok(())
        },
    }
}

/// The text that is validated as the base URL: `value` trimmed of
/// whitespace, then of trailing slashes.
pub open spec fn base_url_candidate(value: Seq<char>) -> Seq<char> {
    trim_end_char(trim_ws(value), '/')
}

/// The outcome of normalising `value` as a base URL.
pub open spec fn normalized_base_url(value: Seq<char>) -> Result<Seq<char>, Seq<char>> {
    let candidate = base_url_candidate(value);
    if candidate.len() == 0 {
        Err(url_empty_text())
    } else {
        match base_url_verdict(url_parse_result(candidate)) {
            Ok(()) => Ok(candidate),
            Err(m) => Err(m),
        }
    }
}

/// Applies [`base_url_verdict`] to the outcome of parsing a candidate base URL.
pub fn check_parsed_base_url(parsed: &Option<ParsedUrl>) -> (res: Result<(), String>)
    ensures
        match res {
            Ok(()) => base_url_verdict(parsed.deep_view()) is Ok,
            Err(m) => base_url_verdict(parsed.deep_view()) == Err::<(), Seq<char>>(m@),
        },
{
    match parsed {
        None => Err(url_invalid_message()),
        Some(p) => {
            let http = String::from_str("http");
            let https = String::from_str("https");
            proof {
                reveal_strlit("http");
                reveal_strlit("https");
            }
            if !(p.scheme == http || p.scheme == https) || p.host.is_none() {
                Err(url_invalid_message())
            } else if p.query.is_some() || p.fragment.is_some() {
                Err(url_query_message())
            } else {
                Ok(())
            }
        },
    }
}

/// Trims `value` of whitespace and trailing slashes and accepts it as a base
/// URL when it is non-empty and parses as an `http` or `https` URL with a host
/// and without query or fragment. The accepted text is the trimmed input
/// itself, not the parser's serialisation of it.
pub fn normalize_base_url(value: &str) -> (res: Result<String, String>)
    ensures
        match res {
            Ok(s) => normalized_base_url(value@) == Ok::<Seq<char>, Seq<char>>(s@),
            Err(m) => normalized_base_url(value@) == Err::<Seq<char>, Seq<char>>(m@),
        },
{
    let candidate = strip_trailing_char(trim_whitespace(value), '/');
    if candidate.is_empty() {
        return Err(url_empty_message());
    }
    let parsed = parse_url(candidate);
    match check_parsed_base_url(&parsed) {
        Ok(()) => Ok(candidate.to_owned()),
        Err(m) => Err(m),
    }
}

proof fn lemma_trim_start_ws_head(s: Seq<char>)
    ensures
        trim_start_ws(s).len() > 0 ==> !is_unicode_whitespace(trim_start_ws(s)[0]),
    decreases s.len(),
{
    if s.len() > 0 && is_unicode_whitespace(s[0]) {
        lemma_trim_start_ws_head(s.drop_first());
    }
}

proof fn lemma_trim_end_ws_is_prefix(s: Seq<char>)
    ensures
        trim_end_ws(s).len() <= s.len(),
        trim_end_ws(s) == s.take(trim_end_ws(s).len() as int),
    decreases s.len(),
{
    if s.len() > 0 && is_unicode_whitespace(s.last()) {
        lemma_trim_end_ws_is_prefix(s.drop_last());
        assert(s.drop_last().take(trim_end_ws(s).len() as int) =~= s.take(
            trim_end_ws(s).len() as int,
        ));
    } else {
        assert(s.take(s.len() as int) =~= s);
    }
}

proof fn lemma_trim_end_char_is_prefix(s: Seq<char>, c: char)
    ensures
        trim_end_char(s, c).len() <= s.len(),
        trim_end_char(s, c) == s.take(trim_end_char(s, c).len() as int),
        trim_end_char(s, c).len() > 0 ==> trim_end_char(s, c).last() != c,
    decreases s.len(),
{
    if s.len() > 0 && s.last() == c {
        lemma_trim_end_char_is_prefix(s.drop_last(), c);
        assert(s.drop_last().take(trim_end_char(s, c).len() as int) =~= s.take(
            trim_end_char(s, c).len() as int,
        ));
    } else {
        assert(s.take(s.len() as int) =~= s);
    }
}

/// An accepted base URL that does not end in whitespace is accepted again,
/// unchanged, when it is normalised a second time.
pub proof fn lemma_normalize_idempotent(value: Seq<char>, url: Seq<char>)
    requires
        normalized_base_url(value) == Ok::<Seq<char>, Seq<char>>(url),
        !is_unicode_whitespace(url.last()),
    ensures
        normalized_base_url(url) == Ok::<Seq<char>, Seq<char>>(url),
{
    let y = trim_start_ws(value);
    let x = trim_end_ws(y);
    lemma_trim_start_ws_head(value);
    lemma_trim_end_ws_is_prefix(y);
    lemma_trim_end_char_is_prefix(x, '/');
    assert(url == trim_end_char(x, '/'));
    assert(url.len() > 0);
    assert(url[0] == x[0]);
    assert(x[0] == y[0]);
    assert(trim_start_ws(url) == url);
    assert(trim_end_ws(url) == url);
    assert(trim_end_char(url, '/') == url);
    assert(base_url_candidate(url) == url);
}

} // verus!
