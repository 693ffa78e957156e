//! The calls into `serde_json` that re-indent the window list.
//!
//! A parsed document and a parse failure each keep the text they came from,
//! which is their view; they are built only by `parse_json_document`, so what
//! `serde_json` makes of them is a function of that text.

use vstd::prelude::*;

verus! {

/// `serde_json::Value`, held opaquely.
#[verifier::external_type_specification]
#[verifier::external_body]
pub struct ExJsonValue(serde_json::Value);

/// `serde_json::Error`, held opaquely.
#[verifier::external_type_specification]
#[verifier::external_body]
pub struct ExJsonError(serde_json::Error);

/// Whether `serde_json::from_str::<serde_json::Value>` accepts `text`, that
/// is, whether `text` is exactly one JSON value (surrounded by whitespace at
/// most) that nests no deeper than the parser's recursion limit.
pub uninterp spec fn json_text_parses(text: Seq<char>) -> bool;

/// The text that `serde_json::to_string_pretty` writes for the value that
/// `serde_json::from_str` parsed from `source`: the same JSON value, one
/// element or member per line, indented by two spaces per level.
pub uninterp spec fn json_pretty_text(source: Seq<char>) -> Seq<char>;

/// The `Display` text of the error that `serde_json::from_str` gives for
/// `source`: what went wrong, and the line and column where it did.
pub uninterp spec fn json_parse_error_text(source: Seq<char>) -> Seq<char>;

/// A JSON value parsed from a text.
#[derive(Debug)]
pub struct JsonDocument {
    value: serde_json::Value,
    source: String,
}

/// A text that is not a JSON value, with the parser's error.
#[derive(Debug)]
pub struct JsonParseError {
    error: serde_json::Error,
    source: String,
}

impl View for JsonDocument {
    type V = Seq<char>;

    /// The text the document was parsed from.
    closed spec fn view(&self) -> Seq<char> {
        self.source@
    }
}

impl View for JsonParseError {
    type V = Seq<char>;

    /// The text that failed to parse.
    closed spec fn view(&self) -> Seq<char> {
        self.source@
    }
}

/// Calls `serde_json::from_str::<serde_json::Value>`. Claimed: it succeeds
/// exactly when `json_text_parses` holds of the text; the parser's outcome
/// depends on the text alone.
#[verifier::external_body]
fn parse_json_value(text: &str) -> (r: Result<serde_json::Value, serde_json::Error>)
    ensures
        r is Ok <==> json_text_parses(text@),
{
    serde_json::from_str::<serde_json::Value>(text)
}

/// Calls `serde_json::to_string_pretty` on the value of a parsed document.
/// Claimed: it never fails, and it gives `json_pretty_text` of the text the
/// value was parsed from. The source shows why it cannot fail: a `Value`
/// serializes only strings as map keys and writes non-finite numbers as
/// `null`, and writing into the in-memory buffer cannot fail.
#[verifier::external_body]
fn json_document_to_pretty_text(document: &JsonDocument) -> (r: Result<String, serde_json::Error>)
    ensures
        r is Ok,
        r matches Ok(s) ==> s@ == json_pretty_text(document@),
{
    serde_json::to_string_pretty(&document.value)
}

/// Calls `ToString::to_string` on the error of a failed parse, which gives
/// its `Display` text. Claimed: that is `json_parse_error_text` of the text
/// that failed to parse.
#[verifier::external_body]
fn json_parse_error_to_text(failure: &JsonParseError) -> (r: String)
    ensures
        r@ == json_parse_error_text(failure@),
{
    failure.error.to_string()
}

/// Parses a text as one JSON value.
pub fn parse_json_document(text: &str) -> (r: Result<JsonDocument, JsonParseError>)
    ensures
        r is Ok <==> json_text_parses(text@),
        r matches Ok(d) ==> d@ == text@,
        r matches Err(e) ==> e@ == text@,
{
    match parse_json_value(text) {
        Ok(value) => Ok(JsonDocument { value, source: String::from_str(text) }),
        Err(error) => Err(JsonParseError { error, source: String::from_str(text) }),
    }
}

impl JsonDocument {
    /// The document re-indented: `json_pretty_text` of its text.
    pub fn to_pretty_text(&self) -> (r: String)
        ensures
            r@ == json_pretty_text(self@),
    {
        match json_document_to_pretty_text(self) {
            Ok(text) => text,
            Err(_) => vstd::pervasive::unreached(),
        }
    }
}

impl JsonParseError {
    /// The parser's description of the failure.
    pub fn message(&self) -> (r: String)
        ensures
            r@ == json_parse_error_text(self@),
    {
        json_parse_error_to_text(self)
    }
}

} // verus!
