//! Trusted boundary to serde_json, used to decode upstream reply bodies.
//! Each reading is a deterministic function of the body's characters, so
//! its result is named by an uninterpreted spec function and tied to the
//! call here; the verified code reasons through those names.

use vstd::prelude::*;

verus! {

/// Whether serde_json parses this text as a JSON document; the outcome
/// depends on the characters alone.
pub uninterp spec fn json_parses(s: Seq<char>) -> bool;

/// The completion summary a parsed reply body yields: the text of the
/// first choice, or the empty string where that field is absent or not a
/// string. A deterministic function of the body's characters.
pub uninterp spec fn completion_text_of(body: Seq<char>) -> Seq<char>;

/// The embeddings summary a parsed reply body yields: the JSON rendering
/// of the `data` field, `null` where it is absent. A deterministic
/// function of the body's characters.
pub uninterp spec fn embeddings_data_of(body: Seq<char>) -> Seq<char>;

/// Relies on serde_json::from_str for serde_json::Value, on its Index
/// impl for Value (`["choices"][0]["text"]`, Null on any mismatch), and
/// on Value::as_str: parsing succeeds exactly when the body is a valid
/// JSON document, and the text read is the chain's result, with the empty
/// string where the field is absent. Err carries the rendered parse error.
#[verifier::external_body]
pub(crate) fn completion_text(body: &str) -> (r: Result<String, String>)
    ensures
        r is Ok <==> json_parses(body@),
        r matches Ok(s) ==> s@ == completion_text_of(body@),
{
    match serde_json::from_str::<serde_json::Value>(body) {
        Err(e) => Err(e.to_string()),
        Ok(v) => Ok(v["choices"][0]["text"].as_str().unwrap_or_default().to_string()),
    }
}

/// Relies on serde_json::from_str for serde_json::Value, on its Index
/// impl for Value (`["data"]`, Null when absent), and on
/// serde_json::to_string: parsing succeeds exactly when the body is a
/// valid JSON document, and the rendering is the `data` field's. On a
/// parsed Value the rendering cannot fail — its map keys are strings and
/// its numbers finite — so Ok-ness is the parse's alone; Err carries the
/// rendered error.
#[verifier::external_body]
pub(crate) fn embeddings_data(body: &str) -> (r: Result<String, String>)
    ensures
        r is Ok <==> json_parses(body@),
        r matches Ok(s) ==> s@ == embeddings_data_of(body@),
{
    match serde_json::from_str::<serde_json::Value>(body) {
        Err(e) => Err(e.to_string()),
        Ok(v) => match serde_json::to_string(&v["data"]) {
            Ok(s) => Ok(s),
            Err(e) => Err(e.to_string()),
        },
    }
}

} // verus!
