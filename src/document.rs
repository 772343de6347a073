//! The parsed JSON document tree that responses are decoded from.
use vstd::prelude::*;

verus! {

/// A parsed JSON value. Numbers that are not unsigned integers are kept
/// only as the fact that they were numbers, since no record field takes them.
#[derive(Debug)]
pub enum Json {
    Null,
    Bool(bool),
    Unsigned(u64),
    OtherNumber,
    Str(String),
    Array(Vec<Json>),
    Object(Vec<(String, Json)>),
}

/// The document that a text parses to, or none when it is not valid JSON.
/// Object members come in ascending key order, each key once.
pub uninterp spec fn parsed_document(text: Seq<char>) -> Option<Json>;

/// Relies on serde_json::from_str into serde_json::Value: parses the text,
/// and the parsed value depends on the text alone.
#[verifier::external_body]
pub(crate) fn parse_document(text: &str) -> (r: Result<Json, serde_json::Error>)
    ensures
        match r {
            Ok(j) => parsed_document(text@) == Some(j),
            Err(_) => parsed_document(text@) is None,
        },
{
    serde_json::from_str::<serde_json::Value>(text).map(document_of)
}

/// Relies on serde_json::Value's variants and serde_json::Number::as_u64:
/// converts a parsed value into a document tree, node for node.
#[verifier::external_body]
fn document_of(v: serde_json::Value) -> Json {
    match v {
        serde_json::Value::Null => Json::Null,
        serde_json::Value::Bool(b) => Json::Bool(b),
        serde_json::Value::Number(n) => match n.as_u64() {
            Some(u) => Json::Unsigned(u),
            None => Json::OtherNumber,
        },
        serde_json::Value::String(s) => Json::Str(s),
        serde_json::Value::Array(a) => Json::Array(a.into_iter().map(document_of).collect()),
        serde_json::Value::Object(m) => Json::Object(m.into_iter().map(|(k, x)| (k, document_of(x))).collect()),
    }
}

#[verifier::external_type_specification]
#[verifier::external_body]
pub struct ExJsonValue(serde_json::Value);

#[verifier::external_type_specification]
#[verifier::external_body]
pub struct ExJsonError(serde_json::Error);

/// Relies on serde_json::Error's Display: the message that describes a parse failure.
#[verifier::external_body]
pub(crate) fn error_message(e: &serde_json::Error) -> String {
    e.to_string()
}

} // verus!
