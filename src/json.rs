//! JSON string literals, for the documents this crate writes.
use vstd::prelude::*;

verus! {

/// The JSON string literal, quotes included, that stands for a text.
pub uninterp spec fn json_text_of(s: Seq<char>) -> Seq<char>;

/// Relies on serde_json::to_string on a `str`, which writes the text as one
/// JSON string literal; it cannot fail on a `str`, which has no map keys.
#[verifier::external_body]
pub(crate) fn quote_json(s: &str) -> (r: String)
    ensures
        r@ == json_text_of(s@),
{
    match serde_json::to_string(s) {
        Ok(t) => t,
        Err(_) => String::new(),
    }
}

} // verus!
