use vstd::prelude::*;

verus! {

/// Whether `serde_json` accepts the text as one JSON document.
pub uninterp spec fn is_json_text(s: Seq<char>) -> bool;

/// Relies on `serde_json::from_str::<serde_json::Value>`: it succeeds when
/// the whole text is one JSON document that serde_json accepts (well-formed,
/// within its nesting limit); the answer depends on the text alone.
#[verifier::external_body]
pub(crate) fn check_json_text(s: &str) -> (r: bool)
    ensures
        r == is_json_text(s@),
{
    serde_json::from_str::<serde_json::Value>(s).is_ok()
}

/// Whether `serde_json` accepts the text as one JSON array of documents.
pub uninterp spec fn is_json_array_text(s: Seq<char>) -> bool;

/// Relies on `serde_json::from_str::<Vec<serde_json::Value>>`: it succeeds
/// when the whole text is one JSON array that serde_json accepts; the answer
/// depends on the text alone.
#[verifier::external_body]
pub(crate) fn check_json_array_text(s: &str) -> (r: bool)
    ensures
        r == is_json_array_text(s@),
{
    serde_json::from_str::<Vec<serde_json::Value>>(s).is_ok()
}

} // verus!
