//! The JSON values that pass through the core, and the one JSON call it makes.
use vstd::prelude::*;

verus! {

#[verifier::external_type_specification]
#[verifier::external_body]
pub struct ExJsonValue(serde_json::Value);

/// Whether `s` is one complete JSON document (surrounding whitespace allowed).
pub uninterp spec fn is_json_text(s: Seq<char>) -> bool;

/// Relies on `serde_json::from_str::<serde_json::Value>`: it succeeds exactly
/// when the text is one JSON document, which depends on the text alone.
#[verifier::external_body]
pub(crate) fn parse_json(s: &str) -> (r: Option<serde_json::Value>)
    ensures
        r is Some <==> is_json_text(s@),
{
    serde_json::from_str::<serde_json::Value>(s).ok()
}

} // verus!
