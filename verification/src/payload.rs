//! The body of a billing query: a JSON document that names a period.
//!
//! The text is written from a template and then read and written again by
//! `serde_json`, so that what is sent is the document as that crate writes it.

use serde_json::{Error, Value};
use vstd::prelude::*;
use vstd::string::StringExecFns;

verus! {

/// The template up to the first day of the period.
pub const TEMPLATE_HEAD: &'static str = "{\"TimePeriod\":{\"Start\":\"";

/// The template between the first day of the period and the day after its last.
pub const TEMPLATE_MIDDLE: &'static str = "\",\"End\":\"";

/// The template after the end of the period.
pub const TEMPLATE_TAIL: &'static str =
    "\"},\"Granularity\":\"MONTHLY\",\"Metrics\":[\"AmortizedCost\"]}";

/// Why no body was made.
#[derive(Clone, Copy, Debug, PartialEq, Eq, Structural)]
pub enum PayloadError {
    /// The template with the period filled in is no JSON document.
    Unreadable,
    /// The document that was read could not be written.
    Unwritable,
}

impl PayloadError {
    /// The sentence that names the step that failed.
    pub open spec fn description(self) -> Seq<char> {
        match self {
            PayloadError::Unreadable => "the query for this period is no JSON document"@,
            PayloadError::Unwritable => "the query that was read could not be written"@,
        }
    }

    /// Says in words which step failed.
    pub fn describe(&self) -> (sentence: &'static str)
        ensures
            sentence@ == self.description(),
    {
        match self {
            PayloadError::Unreadable => "the query for this period is no JSON document",
            PayloadError::Unwritable => "the query that was read could not be written",
        }
    }
}

/// A JSON document of `serde_json`.
#[verifier::external_type_specification]
#[verifier::external_body]
pub struct ExValue(serde_json::Value);

/// The error of `serde_json`.
#[verifier::external_type_specification]
#[verifier::external_body]
pub struct ExError(serde_json::Error);

/// The document that `serde_json` reads from `text`, where it reads one.
pub uninterp spec fn json_document(text: Seq<char>) -> Option<Value>;

/// The text that `serde_json` writes for `document`, where it writes one.
pub uninterp spec fn json_text(document: Value) -> Option<Seq<char>>;

/// Calls `serde_json::from_str` for a `Value`. Trusted: whether a document
/// comes back, and which, depends on `text` alone.
#[verifier::external_body]
fn read_json(text: &str) -> (read: Result<Value, Error>)
    ensures
        read matches Ok(document) ==> json_document(text@) == Some(document),
        read is Err ==> json_document(text@) is None,
{
    serde_json::from_str(text)
}

/// Calls `serde_json::to_string` on a `Value`. Trusted: whether a text comes
/// back, and which, depends on `document` alone.
#[verifier::external_body]
fn write_json(document: &Value) -> (written: Result<String, Error>)
    ensures
        written matches Ok(text) ==> json_text(*document) == Some(text@),
        written is Err ==> json_text(*document) is None,
{
    serde_json::to_string(document)
}

/// The query for the period from `start` to `end`, as the template has it.
pub open spec fn billing_template_text(start: Seq<char>, end: Seq<char>) -> Seq<char> {
    TEMPLATE_HEAD@ + start + TEMPLATE_MIDDLE@ + end + TEMPLATE_TAIL@
}

/// What rewriting `text` gives: the text that is written for the document
/// that is read from `text`, or the step that failed.
pub open spec fn rewritten_json(text: Seq<char>) -> Result<Seq<char>, PayloadError> {
    match json_document(text) {
        None => Err(PayloadError::Unreadable),
        Some(document) => match json_text(document) {
            None => Err(PayloadError::Unwritable),
            Some(written) => Ok(written),
        },
    }
}

/// Fills the period into the template.
pub fn billing_template(start: &str, end: &str) -> (text: String)
    ensures
        text@ == billing_template_text(start@, end@),
{
    let mut text = String::from_str(TEMPLATE_HEAD);
    text.append(start);
    text.append(TEMPLATE_MIDDLE);
    text.append(end);
    text.append(TEMPLATE_TAIL);
    text
}

/// Reads `text` as a JSON document and writes the document out again.
pub fn rewrite_json(text: &str) -> (rewritten: Result<String, PayloadError>)
    ensures
        rewritten matches Ok(written) ==> rewritten_json(text@) == Ok::<
            Seq<char>,
            PayloadError,
        >(written@),
        rewritten matches Err(e) ==> rewritten_json(text@) == Err::<Seq<char>, PayloadError>(e),
{
    match read_json(text) {
        Err(_) => Err(PayloadError::Unreadable),
        Ok(document) => match write_json(&document) {
            Err(_) => Err(PayloadError::Unwritable),
            Ok(written) => Ok(written),
        },
    }
}

} // verus!
