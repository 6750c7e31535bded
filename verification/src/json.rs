//! Whether a text is a JSON document.
use vstd::prelude::*;

verus! {

/// Whether `serde_json` parses `text` as one JSON value.
pub uninterp spec fn json_accepts(text: Seq<char>) -> bool;

/// `serde_json::from_str::<serde_json::Value>`, reduced to whether it
/// succeeds: the answer depends on the text alone and is named
/// `json_accepts`; what JSON grammar it checks is not restated here.
#[verifier::external_body]
pub(crate) fn is_json(text: &str) -> (b: bool)
    ensures
        b == json_accepts(text@),
{
    serde_json::from_str::<serde_json::Value>(text).is_ok()
}

} // verus!
