//! Parsing of JSON text into `serde_json` values.
use vstd::prelude::*;
use vstd::string::*;

use crate::error::AvSpeechError;

verus! {

/// A JSON value of `serde_json`; the library carries it without looking
/// inside.
#[verifier::external_type_specification]
#[verifier::external_body]
pub struct ExJsonValue(serde_json::Value);

/// What `serde_json::from_str::<serde_json::Value>` gives on `text`: the
/// parsed value, or the displayed text of its error.
pub uninterp spec fn json_value_parse(text: Seq<char>) -> Result<serde_json::Value, Seq<char>>;

/// Parses `text` with `serde_json::from_str::<serde_json::Value>`.
///
/// Trusted: the contract claims that the outcome (the parsed value, or the
/// displayed text of the error) depends on `text` alone; `json_value_parse`
/// names it. What the value holds is not spelled out.
#[verifier::external_body]
fn parse_json_value(text: &str) -> (r: Result<serde_json::Value, String>)
    ensures
        match r {
            Ok(v) => json_value_parse(text@) == Ok::<serde_json::Value, Seq<char>>(v),
            Err(m) => json_value_parse(text@) == Err::<serde_json::Value, Seq<char>>(m@),
        },
{
    match serde_json::from_str::<serde_json::Value>(text) {
        Ok(value) => Ok(value),
        Err(error) => Err(error.to_string()),
    }
}

/// The text of the error for a JSON payload of `context` that did not parse.
pub open spec fn json_decode_message(context: Seq<char>, error: Seq<char>) -> Seq<char> {
    "failed to decode "@ + context + " JSON payload: "@ + error
}

/// Parses `json` into a JSON value; a parse error becomes an `Unknown`
/// error that names `context` and carries the parser's message.
pub fn parse_json_text(json: &str, context: &str) -> (r: Result<serde_json::Value, AvSpeechError>)
    ensures
        match json_value_parse(json@) {
            Ok(v) => r == Ok::<serde_json::Value, AvSpeechError>(v),
            Err(m) => r matches Err(e) && e matches AvSpeechError::Unknown(msg)
                && msg@ == json_decode_message(context@, m),
        },
{
    match parse_json_value(json) {
        Ok(value) => Ok(value),
        Err(error) => {
            let mut m = "failed to decode ".to_owned();
            m.append(context);
            m.append(" JSON payload: ");
            m.append(error.as_str());
            Err(AvSpeechError::Unknown(m))
        },
    }
}

} // verus!
