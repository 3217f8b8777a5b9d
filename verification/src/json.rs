//! JSON documents as plain values, and the calls into `serde_json` that read
//! and write them.

use vstd::prelude::*;
use crate::string_map::{pairs_view, Entries, StringMap};

verus! {

/// A JSON value. An object lists its members in the order of the document;
/// a number keeps its text.
#[derive(Debug, PartialEq, Eq)]
pub enum Json {
    Null,
    Bool(bool),
    Number(String),
    Text(String),
    Array(Vec<Json>),
    Object(Vec<(String, Json)>),
}

/// `serde_json::Value`, the parsed form of a document. Nothing is known of
/// what it holds but through `json_tree`.
#[verifier::external_type_specification]
#[verifier::external_body]
pub struct ExValue(serde_json::Value);

/// `serde_json::Error`, the failure of a parse. Nothing is known of it.
#[verifier::external_type_specification]
#[verifier::external_body]
pub struct ExError(serde_json::Error);

/// The value that a text denotes as a JSON document, or `None` where the
/// text is not one.
pub uninterp spec fn json_document(text: Seq<char>) -> Option<Json>;

/// The plain value that a parsed `serde_json::Value` holds.
pub uninterp spec fn json_tree(value: serde_json::Value) -> Json;

/// The JSON text of an object whose members are the given strings, or `None`
/// where it cannot be written.
pub uninterp spec fn json_object_text(members: Entries) -> Option<Seq<char>>;

/// Calls `serde_json::from_str` for a `serde_json::Value`. The call succeeds
/// exactly on the texts that are JSON documents, and the value it returns
/// holds the document.
#[verifier::external_body]
fn parse_value(text: &str) -> (parsed: Result<serde_json::Value, serde_json::Error>)
    ensures
        match parsed {
            Ok(value) => json_document(text@) == Some(json_tree(value)),
            Err(_) => json_document(text@) is None,
        },
{
    serde_json::from_str::<serde_json::Value>(text)
}

/// Moves the content of a `serde_json::Value` into a `Json`, variant by
/// variant: the items of an array and the members of an object in their
/// order, a number as the text that its `Display` writes.
#[verifier::external_body]
fn tree_of(value: serde_json::Value) -> (tree: Json)
    ensures
        tree == json_tree(value),
{
    match value {
        serde_json::Value::Null => Json::Null,
        serde_json::Value::Bool(flag) => Json::Bool(flag),
        serde_json::Value::Number(number) => Json::Number(number.to_string()),
        serde_json::Value::String(text) => Json::Text(text),
        serde_json::Value::Array(items) => Json::Array(items.into_iter().map(tree_of).collect()),
        serde_json::Value::Object(members) => Json::Object(
            members.into_iter().map(|(name, member)| (name, tree_of(member))).collect(),
        ),
    }
}

/// The message of a `serde_json::Error`, as its `Display` writes it.
#[verifier::external_body]
fn error_text(error: &serde_json::Error) -> (message: String)
{
    error.to_string()
}

/// Calls `serde_json::to_string` on a `serde_json::Map` that holds the pairs
/// as string members. The map keeps the order in which it is filled, so the
/// text is the same for the same pairs.
#[verifier::external_body]
fn object_text(pairs: &Vec<(String, String)>) -> (text: Option<String>)
    ensures
        match text {
            Some(written) => json_object_text(pairs_view(pairs@)) == Some(written@),
            None => json_object_text(pairs_view(pairs@)) is None,
        },
{
    let members: serde_json::Map<String, serde_json::Value> = pairs
        .iter()
        .map(|(name, value)| (name.clone(), serde_json::Value::String(value.clone())))
        .collect();
    serde_json::to_string(&members).ok()
}

/// Why a text could not be read as JSON.
#[derive(Debug, PartialEq, Eq)]
pub struct JsonParseError {
    pub message: String,
}

/// Reads a text as a JSON document.
pub fn parse_json(text: &str) -> (parsed: Result<Json, JsonParseError>)
    ensures
        match parsed {
            Ok(document) => json_document(text@) == Some(document),
            Err(_) => json_document(text@) is None,
        },
{
    match parse_value(text) {
        Ok(value) => Ok(tree_of(value)),
        Err(error) => Err(JsonParseError { message: error_text(&error) }),
    }
}

/// The body text of a request that carries the given parameters as a JSON
/// object; the empty text where the object cannot be written.
pub open spec fn json_body(members: Entries) -> Seq<char> {
    match json_object_text(members) {
        Some(text) => text,
        None => seq![],
    }
}

/// Writes the parameters as a JSON object of strings, in their order. Where
/// the object cannot be written the result is the empty string.
pub fn write_json_object(members: &StringMap) -> (text: String)
    ensures
        text@ == json_body(members@),
{
    match object_text(members.as_pairs()) {
        Some(written) => written,
        None => String::new(),
    }
}

} // verus!
