//! The JSON reader, as far as the response pipeline needs it: does a text
//! read as one JSON value, and if not, what does the reader say.

use vstd::prelude::*;

verus! {

/// What the JSON reader says of a text that it cannot read as exactly one
/// JSON value; nothing for a text that it can read.
pub uninterp spec fn json_diagnostic(text: Seq<char>) -> Option<Seq<char>>;

/// Reads `text` with `serde_json::from_str` as a `serde_json::Value` and
/// keeps only the reader's complaint, written out with its `Display`.
///
/// Trusted: the outcome depends on the text alone, so it has a name. The
/// result is nothing where the reader accepts the whole text as one JSON
/// value, and the reader's message where it does not.
#[verifier::external_body]
pub(crate) fn diagnose_json(text: &str) -> (fault: Option<String>)
    ensures
        fault is Some == json_diagnostic(text@) is Some,
        fault matches Some(message) ==> json_diagnostic(text@) == Some(message@),
{
    match serde_json::from_str::<serde_json::Value>(text) {
        Ok(_) => None,
        Err(error) => Some(error.to_string()),
    }
}

} // verus!
