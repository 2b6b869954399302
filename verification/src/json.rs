//! What the library reads from JSON documents.
//!
//! Documents are parsed by the `serde_json` crate. The library asks it three
//! things only: whether a text is a document, which string stands at a
//! place in it, and how long the array at a place is. A place is a JSON
//! pointer (RFC 6901), such as `/choices/0/delta/content`.

use vstd::prelude::*;
use crate::text::opt_text;

verus! {

/// Whether `serde_json` accepts `doc` as a JSON document.
pub uninterp spec fn json_valid(doc: Seq<char>) -> bool;

/// The string that `serde_json` finds in the document `doc` at the place
/// `pointer`; nothing where `doc` is no document, the place does not exist,
/// or something other than a string stands there.
pub uninterp spec fn json_text(doc: Seq<char>, pointer: Seq<char>) -> Option<Seq<char>>;

/// The length of the array that `serde_json` finds in the document `doc` at
/// the place `pointer`; nothing where `doc` is no document, the place does
/// not exist, or something other than an array stands there.
pub uninterp spec fn json_array_len(doc: Seq<char>, pointer: Seq<char>) -> Option<nat>;

/// The view of an optional length.
pub open spec fn opt_len(o: Option<usize>) -> Option<nat> {
    match o {
        Some(n) => Some(n as nat),
        None => None,
    }
}

/// `serde_json::from_str` to a `Value`: whether it succeeds. The answer
/// depends on the text alone.
#[verifier::external_body]
pub(crate) fn is_document(doc: &str) -> (r: bool)
    ensures
        r == json_valid(doc@),
{
    serde_json::from_str::<serde_json::Value>(doc).is_ok()
}

/// `serde_json::from_str` to a `Value`, `Value::pointer`, and
/// `Value::as_str`. The answer depends on the two texts alone.
#[verifier::external_body]
pub(crate) fn text_at(doc: &str, pointer: &str) -> (r: Option<String>)
    ensures
        opt_text(r) == json_text(doc@, pointer@),
{
    let value = serde_json::from_str::<serde_json::Value>(doc).ok()?;
    value.pointer(pointer)?.as_str().map(|s| s.to_owned())
}

/// `serde_json::from_str` to a `Value`, `Value::pointer`, and
/// `Value::as_array` with the array's length. The answer depends on the two
/// texts alone.
#[verifier::external_body]
pub(crate) fn array_len_at(doc: &str, pointer: &str) -> (r: Option<usize>)
    ensures
        opt_len(r) == json_array_len(doc@, pointer@),
{
    let value = serde_json::from_str::<serde_json::Value>(doc).ok()?;
    value.pointer(pointer)?.as_array().map(|a| a.len())
}

} // verus!
