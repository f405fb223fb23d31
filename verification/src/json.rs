use vstd::prelude::*;

use crate::message::EncodingError;

verus! {

#[verifier::external_type_specification]
#[verifier::external_body]
pub struct ExValue(serde_json::Value);

#[verifier::external_type_specification]
#[verifier::external_body]
pub struct ExJsonError(serde_json::Error);

/// Whether `serde_json` accepts the text as a JSON document.
pub uninterp spec fn json_parse_ok(s: Seq<char>) -> bool;

/// Relies on `serde_json::from_str::<Value>`: parses the text as a JSON
/// document; whether it succeeds depends on the text alone.
#[verifier::external_body]
fn json_from_str(s: &str) -> (r: Result<serde_json::Value, serde_json::Error>)
    ensures
        r is Ok <==> json_parse_ok(s@),
{
    serde_json::from_str::<serde_json::Value>(s)
}

/// Relies on the `Display` impl of `serde_json::Error`: a description of
/// the parse failure.
#[verifier::external_body]
fn json_error_text(e: &serde_json::Error) -> String {
    e.to_string()
}

/// Parse a text payload as a JSON value. Succeeds exactly when the text is
/// a JSON document; a failure is surfaced inline as an `EncodingError`.
pub fn parse_json(s: &str) -> (r: Result<serde_json::Value, EncodingError>)
    ensures
        r is Ok <==> json_parse_ok(s@),
{
    match json_from_str(s) {
        Ok(v) => Ok(v),
        Err(e) => Err(EncodingError { message: json_error_text(&e) }),
    }
}

} // verus!
