//! Trusted bridge to serde_json.
//!
//! The passport service answers with small JSON documents. This module
//! gives each field lookup that the flow needs a contract stated over
//! uninterpreted names: what a given JSON text parses to is a function
//! of the text alone, so `is_json`, `i64_at`, `u64_at` and `str_at`
//! name the outcomes of parsing a text and following a JSON-pointer
//! path through the resulting document. The rest of the crate reasons
//! over these names; only this module calls serde_json.

use vstd::prelude::*;

verus! {

/// Whether a text is a well-formed JSON document.
pub uninterp spec fn is_json(body: Seq<char>) -> bool;

/// The signed integer at a JSON-pointer path of the document a text
/// parses to: `None` when the text is not JSON, the path has no value,
/// or the value there is not an integer representable as `i64`.
pub uninterp spec fn i64_at(body: Seq<char>, path: Seq<char>) -> Option<i64>;

/// The unsigned integer at a JSON-pointer path of the document a text
/// parses to: `None` when the text is not JSON, the path has no value,
/// or the value there is not an integer representable as `u64`.
pub uninterp spec fn u64_at(body: Seq<char>, path: Seq<char>) -> Option<u64>;

/// The string at a JSON-pointer path of the document a text parses to:
/// `None` when the text is not JSON, the path has no value, or the
/// value there is not a string.
pub uninterp spec fn str_at(body: Seq<char>, path: Seq<char>) -> Option<Seq<char>>;

/// Relies on `serde_json::from_str::<Value>`: whether a text parses as
/// JSON depends on the text alone.
#[verifier::external_body]
pub(crate) fn json_parses(body: &str) -> (r: bool)
    ensures
        r == is_json(body@),
{
    serde_json::from_str::<serde_json::Value>(body).is_ok()
}

/// Relies on `serde_json::from_str::<Value>`, `Value::pointer` and
/// `Value::as_i64`: parsing and pointer lookup are functions of the
/// text and the path alone.
#[verifier::external_body]
pub(crate) fn json_i64_field(body: &str, path: &str) -> (r: Option<i64>)
    ensures
        r == i64_at(body@, path@),
{
    match serde_json::from_str::<serde_json::Value>(body) {
        Ok(doc) => doc.pointer(path).and_then(serde_json::Value::as_i64),
        Err(_) => None,
    }
}

/// Relies on `serde_json::from_str::<Value>`, `Value::pointer` and
/// `Value::as_u64`: parsing and pointer lookup are functions of the
/// text and the path alone.
#[verifier::external_body]
pub(crate) fn json_u64_field(body: &str, path: &str) -> (r: Option<u64>)
    ensures
        r == u64_at(body@, path@),
{
    match serde_json::from_str::<serde_json::Value>(body) {
        Ok(doc) => doc.pointer(path).and_then(serde_json::Value::as_u64),
        Err(_) => None,
    }
}

/// Relies on `serde_json::from_str::<Value>`, `Value::pointer` and
/// `Value::as_str`: parsing and pointer lookup are functions of the
/// text and the path alone.
#[verifier::external_body]
pub(crate) fn json_str_field(body: &str, path: &str) -> (r: Option<String>)
    ensures
        r matches Some(s) ==> str_at(body@, path@) == Some(s@),
        r is Some <==> str_at(body@, path@) is Some,
{
    match serde_json::from_str::<serde_json::Value>(body) {
        Ok(doc) => doc.pointer(path).and_then(serde_json::Value::as_str).map(str::to_owned),
        Err(_) => None,
    }
}

} // verus!
