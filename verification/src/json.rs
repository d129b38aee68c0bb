//! Trusted surface over `serde_json`, used to read the persisted traffic
//! record and to decode streamed traffic chunks.
//!
//! All the logic ever reads out of a JSON document are unsigned integer
//! fields of its root object, so the trusted items name exactly that
//! composed read — document and key to the field's value — a function of
//! the document alone.

use vstd::prelude::*;

verus! {

/// Whether `serde_json` accepts this text as a JSON document.
pub uninterp spec fn json_text_accepted(s: Seq<char>) -> bool;

/// Whether `serde_json` accepts these bytes as a JSON document.
pub uninterp spec fn json_bytes_accepted(b: Seq<u8>) -> bool;

/// The unsigned 64-bit integer under a key of the JSON object this text
/// parses to; nothing when the text does not parse, the root is not an
/// object, the key is absent, or the value is not such a number.
pub uninterp spec fn json_text_u64_field(s: Seq<char>, key: Seq<char>) -> Option<u64>;

/// As `json_text_u64_field`, for a document given as bytes.
pub uninterp spec fn json_bytes_u64_field(b: Seq<u8>, key: Seq<char>) -> Option<u64>;

/// Relies on `serde_json::from_str` with `Value::get` and
/// `Value::as_u64`: parsing and the field read are deterministic in the
/// text and key alone, and a field can only be read out of accepted
/// text.
#[verifier::external_body]
pub(crate) fn read_json_text_u64(s: &str, key: &str) -> (r: Option<u64>)
    ensures
        r == json_text_u64_field(s@, key@),
        r is Some ==> json_text_accepted(s@),
{
    serde_json::from_str::<serde_json::Value>(s).ok()?.get(key)?.as_u64()
}

/// Relies on `serde_json::from_slice` with `Value::get` and
/// `Value::as_u64`, as `read_json_text_u64` does for text.
#[verifier::external_body]
pub(crate) fn read_json_bytes_u64(b: &[u8], key: &str) -> (r: Option<u64>)
    ensures
        r == json_bytes_u64_field(b@, key@),
        r is Some ==> json_bytes_accepted(b@),
{
    serde_json::from_slice::<serde_json::Value>(b).ok()?.get(key)?.as_u64()
}

} // verus!
