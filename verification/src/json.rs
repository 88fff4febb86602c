//! JSON documents, read through `serde_json`.

use vstd::prelude::*;

verus! {

/// A JSON value as a mathematical tree. A number's value plays no part in
/// this crate, so the tree leaves it out.
pub enum Json {
    Null,
    Bool(bool),
    Number,
    Text(Seq<char>),
    Array(Seq<Json>),
    Object(Map<Seq<char>, Json>),
}

impl Json {
    /// The member named `key`, where the value is an object that has one.
    pub open spec fn member(self, key: Seq<char>) -> Option<Json> {
        match self {
            Json::Object(members) => if members.contains_key(key) {
                Some(members[key])
            } else {
                None
            },
            _ => None,
        }
    }

    /// The element at `index`, where the value is an array that long.
    pub open spec fn element(self, index: nat) -> Option<Json> {
        match self {
            Json::Array(elements) => if index < elements.len() {
                Some(elements[index as int])
            } else {
                None
            },
            _ => None,
        }
    }

    /// The text, where the value is a string.
    pub open spec fn text(self) -> Option<Seq<char>> {
        match self {
            Json::Text(text) => Some(text),
            _ => None,
        }
    }

    /// The text of the member named `key`, where that member is a string.
    pub open spec fn text_member(self, key: Seq<char>) -> Option<Seq<char>> {
        match self.member(key) {
            Some(inner) => inner.text(),
            None => None,
        }
    }
}

#[verifier::external_type_specification]
#[verifier::external_body]
pub struct ExValue(serde_json::Value);

/// The tree that a `serde_json::Value` holds.
pub uninterp spec fn json_tree(value: serde_json::Value) -> Json;

/// What `serde_json::from_str` makes of a text: the document's tree, or the
/// message of the error that it reports.
pub uninterp spec fn json_document(text: Seq<char>) -> Result<Json, Seq<char>>;

/// `serde_json::from_str::<serde_json::Value>`. The result depends on the
/// text alone: a value that holds the document's tree, or the error, which is
/// handed on as its message.
#[verifier::external_body]
pub(crate) fn parse(text: &str) -> (parsed: Result<serde_json::Value, String>)
    ensures
        match parsed {
            Ok(value) => json_document(text@) == Ok::<Json, Seq<char>>(json_tree(value)),
            Err(message) => json_document(text@) == Err::<Json, Seq<char>>(message@),
        },
{
    match serde_json::from_str::<serde_json::Value>(text) {
        Ok(value) => Ok(value),
        Err(error) => Err(error.to_string()),
    }
}

/// `serde_json::Value::get` with a string: the member of that name if the
/// value is an object that has one, and nothing otherwise.
#[verifier::external_body]
pub(crate) fn member<'a>(value: &'a serde_json::Value, key: &str) -> (found: Option<
    &'a serde_json::Value,
>)
    ensures
        match found {
            Some(inner) => json_tree(*value).member(key@) == Some(json_tree(*inner)),
            None => json_tree(*value).member(key@) is None,
        },
{
    value.get(key)
}

/// `serde_json::Value::get` with a number: the element at that index if the
/// value is an array that long, and nothing otherwise.
#[verifier::external_body]
pub(crate) fn element<'a>(value: &'a serde_json::Value, index: usize) -> (found: Option<
    &'a serde_json::Value,
>)
    ensures
        match found {
            Some(inner) => json_tree(*value).element(index as nat) == Some(json_tree(*inner)),
            None => json_tree(*value).element(index as nat) is None,
        },
{
    value.get(index)
}

/// `serde_json::Value::as_str`: the text if the value is a string, and
/// nothing otherwise.
#[verifier::external_body]
pub(crate) fn text<'a>(value: &'a serde_json::Value) -> (found: Option<&'a str>)
    ensures
        match found {
            Some(text) => json_tree(*value).text() == Some(text@),
            None => json_tree(*value).text() is None,
        },
{
    value.as_str()
}

/// The text of the member named `key`, where the value is an object in which
/// that member is a string.
pub(crate) fn value_text_member(value: &serde_json::Value, key: &str) -> (found: Option<String>)
    ensures
        match found {
            Some(text) => json_tree(*value).text_member(key@) == Some(text@),
            None => json_tree(*value).text_member(key@) is None,
        },
{
    match member(value, key) {
        Some(inner) => match text(inner) {
            Some(text) => Some(text.to_owned()),
            None => None,
        },
        None => None,
    }
}

/// What was looked for in a document: the text found or its absence, or the
/// message of the error that kept the document from being read.
pub open spec fn found_view(found: Result<Option<String>, String>) -> Result<
    Option<Seq<char>>,
    Seq<char>,
> {
    match found {
        Ok(Some(text)) => Ok(Some(text@)),
        Ok(None) => Ok(None),
        Err(message) => Err(message@),
    }
}

/// The text of the member named `key` in the document that `text` holds.
pub open spec fn document_text_member(text: Seq<char>, key: Seq<char>) -> Result<
    Option<Seq<char>>,
    Seq<char>,
> {
    match json_document(text) {
        Ok(document) => Ok(document.text_member(key)),
        Err(message) => Err(message),
    }
}

/// Reads `text` as a JSON document and looks for the text of its member
/// named `key`.
pub fn text_member(text: &str, key: &str) -> (found: Result<Option<String>, String>)
    ensures
        found_view(found) == document_text_member(text@, key@),
{
    match parse(text) {
        Ok(document) => Ok(value_text_member(&document, key)),
        Err(message) => Err(message),
    }
}

} // verus!
