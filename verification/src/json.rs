//! Trusted shims over serde_json, the only outside crate the library calls.
//! Every JSON document the daemon reads (circuit application metadata, node
//! lookups) goes through these wrappers. What a parse of given bytes yields
//! depends on the bytes alone, so the results are named by uninterpreted
//! spec functions and the callers' contracts are stated over those names.

use vstd::prelude::*;

verus! {

#[verifier::external_type_specification]
#[verifier::external_body]
pub struct ExJsonValue(serde_json::Value);

#[verifier::external_type_specification]
#[verifier::external_body]
pub struct ExJsonError(serde_json::Error);

/// Whether the bytes are one well-formed JSON document, as serde_json's
/// parser decides it; a function of the bytes alone.
pub uninterp spec fn spec_json_is_document(bytes: Seq<u8>) -> bool;

/// The text of the named string member of the JSON object the bytes hold:
/// `Some` exactly when the bytes parse as a document with that member and
/// the member is a string; a function of the bytes and the name alone.
pub uninterp spec fn spec_json_str_member(bytes: Seq<u8>, field: Seq<char>) -> Option<Seq<char>>;

/// The texts of the named all-string-array member of the JSON object the
/// bytes hold: `Some` exactly when the bytes parse as a document with that
/// member, the member is an array, and every element is a string; a
/// function of the bytes and the name alone.
pub uninterp spec fn spec_json_str_array_member(bytes: Seq<u8>, field: Seq<char>) -> Option<
    Seq<Seq<char>>,
>;

/// Relies on serde_json::from_slice: decodes one JSON document from bytes,
/// succeeding exactly on well-formed documents, or reports why the bytes
/// are not one.
#[verifier::external_body]
pub(crate) fn json_from_slice(bytes: &[u8]) -> (r: Result<serde_json::Value, serde_json::Error>)
    ensures
        r is Ok <==> spec_json_is_document(bytes@),
{
    serde_json::from_slice(bytes)
}

/// Relies on serde_json::from_slice, Value::get and Value::as_str: the
/// named string member of the document, whose text the name above stands
/// for.
#[verifier::external_body]
pub(crate) fn json_str_member(bytes: &[u8], field: &str) -> (r: Option<String>)
    ensures
        r matches Some(s) ==> spec_json_str_member(bytes@, field@) == Some(s@),
        r is None ==> spec_json_str_member(bytes@, field@) is None,
{
    let document: serde_json::Value = serde_json::from_slice(bytes).ok()?;
    Some(document.get(field)?.as_str()?.to_string())
}

/// Relies on serde_json::from_slice, Value::get, Value::as_array and
/// Value::as_str: the named array-of-strings member of the document, whose
/// texts the name above stands for.
#[verifier::external_body]
pub(crate) fn json_str_array_member(bytes: &[u8], field: &str) -> (r: Option<Vec<String>>)
    ensures
        r matches Some(v) ==> spec_json_str_array_member(bytes@, field@) == Some(v.deep_view()),
        r is None ==> spec_json_str_array_member(bytes@, field@) is None,
{
    let document: serde_json::Value = serde_json::from_slice(bytes).ok()?;
    let array = document.get(field)?.as_array()?;
    let mut out: Vec<String> = Vec::with_capacity(array.len());
    for element in array {
        out.push(element.as_str()?.to_string());
    }
    Some(out)
}

/// Relies on the Display impl of serde_json::Error for the failure text.
#[verifier::external_body]
pub(crate) fn json_error_text(e: &serde_json::Error) -> (r: String) {
    e.to_string()
}

} // verus!
