//! Reading the service's structured responses and diagnostic payloads.
//!
//! The virtualization service answers with JSON text. Parsing it is done
//! by serde_json behind the two trusted wrappers below; each result is a
//! function of the text alone and is therefore pinned to a named result,
//! so the verified functions above them say exactly when a value comes
//! back and which one.

use vstd::prelude::*;

verus! {

/// Whether serde_json accepts this text as a JSON document; a function of
/// the text alone.
pub uninterp spec fn json_text_wellformed(s: Seq<char>) -> bool;

/// The string value of the text's top-level `RuntimeId` field, when the
/// text parses as a JSON object carrying one; a function of the text
/// alone.
pub uninterp spec fn runtime_id_of(s: Seq<char>) -> Option<Seq<char>>;

/// The pretty-printed rendering of the text's JSON document, for a text
/// that parses; a function of the text alone.
pub uninterp spec fn pretty_of(s: Seq<char>) -> Seq<char>;

/// Relies on serde_json::from_str::<Value>, Value::get and Value::as_str:
/// reads the string value of the text's top-level `RuntimeId` field.
/// Parsing and lookup succeed or fail on the text alone.
#[verifier::external_body]
fn json_runtime_id(s: &str) -> (r: Option<String>)
    ensures
        r is Some <==> runtime_id_of(s@) is Some,
        r matches Some(id) ==> (runtime_id_of(s@) matches Some(v) && id@ == v),
        r is Some ==> json_text_wellformed(s@),
{
    match serde_json::from_str::<serde_json::Value>(s) {
        Ok(v) => match v.get("RuntimeId") {
            Some(field) => field.as_str().map(|id| id.to_owned()),
            None => None,
        },
        Err(_) => None,
    }
}

/// Relies on serde_json::from_str::<Value> and serde_json::to_string_pretty:
/// pretty-prints the text's JSON document. Parsing succeeds or fails on the
/// text alone, and pretty-printing a parsed document cannot fail.
#[verifier::external_body]
fn json_pretty_text(s: &str) -> (r: Option<String>)
    ensures
        r is Some <==> json_text_wellformed(s@),
        r matches Some(p) ==> p@ == pretty_of(s@),
{
    match serde_json::from_str::<serde_json::Value>(s) {
        Ok(v) => serde_json::to_string_pretty(&v).ok(),
        Err(_) => None,
    }
}

/// Best-effort decode of a diagnostic payload: exactly the payloads that
/// parse as JSON decode, to their pretty-printed form.
pub fn decode_diagnostic(payload: &str) -> (r: Option<String>)
    ensures
        r is Some <==> json_text_wellformed(payload@),
        r matches Some(p) ==> p@ == pretty_of(payload@),
{
    json_pretty_text(payload)
}

/// The service-assigned runtime identifier in an identity-query response:
/// the string value of its `RuntimeId` field, exactly when the response
/// parses and carries one.
pub fn extract_runtime_id(response: &str) -> (r: Option<String>)
    ensures
        r is Some <==> runtime_id_of(response@) is Some,
        r matches Some(id) ==> (runtime_id_of(response@) matches Some(v) && id@ == v),
        r is Some ==> json_text_wellformed(response@),
{
    json_runtime_id(response)
}

} // verus!
