//! Keeping the management key out of error texts.
use vstd::prelude::*;

use crate::messages::{redaction_marker_message, redaction_marker_text};
use crate::text::{
    contains_seq, lemma_replace_absent, lemma_replace_first_occurrence, occurs_at, lemma_replace_leaves_no_occurrence, replace_all,
    replace_occurrences,
};

verus! {

/// `message` with every occurrence of a non-empty `secret` replaced by the
/// redaction marker; an empty secret leaves the message as it is.
pub open spec fn redacted(message: Seq<char>, secret: Seq<char>) -> Seq<char> {
    if secret.len() == 0 {
        message
    } else {
        replace_all(message, secret, redaction_marker_text())
    }
}

/// Replaces every occurrence of `secret` in `message`, left to right and
/// without overlaps, by `[REDACTED]`. An empty secret changes nothing.
pub fn redact_secret(message: String, secret: &str) -> (res: String)
    ensures
        res@ == redacted(message@, secret@),
{
    if secret.is_empty() {
        message
    } else {
        let marker = redaction_marker_message();
        replace_occurrences(message.as_str(), secret, marker.as_str())
    }
}

/// A message in which the secret does not occur is returned unchanged.
pub proof fn lemma_redact_keeps_clean_message(message: Seq<char>, secret: Seq<char>)
    requires
        !contains_seq(message, secret),
    ensures
        redacted(message, secret) == message,
{
    if secret.len() > 0 {
        lemma_replace_absent(message, secret, redaction_marker_text());
    }
}

/// A non-empty secret that shares no character with `[REDACTED]` does not
/// occur anywhere in the redacted message.
pub proof fn lemma_redact_hides_secret(message: Seq<char>, secret: Seq<char>)
    requires
        secret.len() > 0,
        forall|i: int| 0 <= i < secret.len() ==> !redaction_marker_text().contains(#[trigger] secret[i]),
    ensures
        !contains_seq(redacted(message, secret), secret),
{
    reveal_strlit("[REDACTED]");
    assert(redaction_marker_text().len() > 0);
    lemma_replace_leaves_no_occurrence(message, secret, redaction_marker_text());
}

/// For every non-empty secret, whatever its characters: the text before the
/// first occurrence of the secret is kept as it is, that occurrence becomes
/// `[REDACTED]`, and the text after it is redacted in the same way. With
/// [`lemma_redact_keeps_clean_message`] this says what `str::replace` does.
pub proof fn lemma_redact_first_occurrence(before: Seq<char>, secret: Seq<char>, after: Seq<char>)
    requires
        secret.len() > 0,
        forall|i: int| 0 <= i < before.len() ==> !occurs_at(#[trigger] (before + secret + after), secret, i),
    ensures
        redacted(before + secret + after, secret) == before + "[REDACTED]"@ + redacted(after, secret),
{
    lemma_replace_first_occurrence(before, secret, after, redaction_marker_text());
}

} // verus!
