//! What the library asks of the JSON parser: whether a text is JSON.

use vstd::prelude::*;

verus! {

/// The message with which the JSON parser refuses a text; nothing for a text
/// that is JSON.
pub uninterp spec fn spec_json_error(text: Seq<char>) -> Option<Seq<char>>;

/// Parses a text as JSON and returns the parser's complaint, if it has one.
///
/// Trusted: `serde_json::from_str` accepts or refuses a text by the text
/// alone, and the text of its error depends on nothing else.
#[verifier::external_body]
pub(crate) fn json_error(text: &str) -> (out: Option<String>)
    ensures
        out.deep_view() == spec_json_error(text@),
{
    match serde_json::from_str::<serde_json::Value>(text) {
        Ok(_) => None,
        Err(e) => Some(e.to_string()),
    }
}

/// A text is JSON.
pub open spec fn is_json(text: Seq<char>) -> bool {
    spec_json_error(text) is None
}

} // verus!
