//! What the library reads of JSON documents, through `serde_json`. The
//! contracts are stated here and believed, not proved.

use vstd::prelude::*;

verus! {

/// The string that stands in a JSON document at a JSON Pointer, as
/// `serde_json` finds it; `None` where the bytes are no JSON document, the
/// pointer leads nowhere in it, or what stands there is no string.
pub uninterp spec fn json_text_of(document: Seq<u8>, pointer: Seq<char>) -> Option<Seq<char>>;

/// Whether `serde_json` reads a text as one JSON value.
pub uninterp spec fn json_well_formed(text: Seq<char>) -> bool;

/// `serde_json::from_slice` into a `Value`, then `Value::pointer` and
/// `Value::as_str` on it: the string at `pointer` in `document`.
#[verifier::external_body]
pub(crate) fn json_text_at(document: &[u8], pointer: &str) -> (text: Option<String>)
    ensures
        match text {
            Some(t) => json_text_of(document@, pointer@) == Some(t@),
            None => json_text_of(document@, pointer@) is None,
        },
{
    let value: serde_json::Value = serde_json::from_slice(document).ok()?;
    let text = value.pointer(pointer)?.as_str()?;
    Some(text.to_owned())
}

/// `serde_json::from_str` into a `Value`: whether `text` is one JSON value.
#[verifier::external_body]
pub(crate) fn json_is_well_formed(text: &str) -> (yes: bool)
    ensures
        yes == json_well_formed(text@),
{
    serde_json::from_str::<serde_json::Value>(text).is_ok()
}

} // verus!
