use vstd::prelude::*;

use crate::error::KeyError;

verus! {

#[verifier::external_type_specification]
#[verifier::external_body]
pub struct ExJsonValue(serde_json::Value);

#[verifier::external_type_specification]
#[verifier::external_body]
pub struct ExJsonError(serde_json::Error);

/// The content of a JSON value. Numbers are not told apart: nothing here
/// reads them.
pub enum JsonTree {
    Null,
    Bool(bool),
    Number,
    Text(Seq<char>),
    Array(Seq<JsonTree>),
    Object(Map<Seq<char>, JsonTree>),
}

/// What a `serde_json::Value` holds.
pub uninterp spec fn json_tree(v: serde_json::Value) -> JsonTree;

/// The document that `serde_json` reads from a text, or `None` where it
/// rejects the text (not JSON, or nested beyond its depth limit).
pub uninterp spec fn parsed_json(text: Seq<char>) -> Option<JsonTree>;

/// Relies on `serde_json::from_str` into a `Value`: it fails exactly when
/// `serde_json` rejects the text, and otherwise returns the document read.
#[verifier::external_body]
fn parse_json(text: &str) -> (r: Result<serde_json::Value, serde_json::Error>)
    ensures
        match r {
            Ok(v) => parsed_json(text@) == Some(json_tree(v)),
            Err(_) => parsed_json(text@) is None,
        },
{
    serde_json::from_str::<serde_json::Value>(text)
}

/// Relies on `serde_json::Value::get` with a string key: on an object it
/// returns the member under that key, if any; on any other value, `None`.
#[verifier::external_body]
fn member<'a>(v: &'a serde_json::Value, key: &str) -> (r: Option<&'a serde_json::Value>)
    ensures
        match json_tree(*v) {
            JsonTree::Object(m) => {
                &&& (r is Some <==> m.contains_key(key@))
                &&& (r matches Some(c) ==> json_tree(*c) == m[key@])
            },
            _ => r is None,
        },
{
    v.get(key)
}

/// Relies on `serde_json::Value::as_str`: the characters of a string value,
/// `None` for any other value.
#[verifier::external_body]
fn text_of(v: &serde_json::Value) -> (r: Option<String>)
    ensures
        match json_tree(*v) {
            JsonTree::Text(s) => r matches Some(t) && t@ == s,
            _ => r is None,
        },
{
    v.as_str().map(String::from)
}

/// The string under `key` in an object, if the value is an object that holds
/// a string there.
pub open spec fn text_member(doc: JsonTree, key: Seq<char>) -> Option<Seq<char>> {
    match doc {
        JsonTree::Object(m) => if m.contains_key(key) {
            match m[key] {
                JsonTree::Text(s) => Some(s),
                _ => None,
            }
        } else {
            None
        },
        _ => None,
    }
}

/// The object under `key` in an object, if there is one.
pub open spec fn object_member(doc: JsonTree, key: Seq<char>) -> Option<JsonTree> {
    match doc {
        JsonTree::Object(m) => if m.contains_key(key) && m[key] is Object {
            Some(m[key])
        } else {
            None
        },
        _ => None,
    }
}

/// The base64 text of the wrapped key: the string at `os_crypt.encrypted_key`.
pub open spec fn encrypted_key_text(doc: JsonTree) -> Option<Seq<char>> {
    match object_member(doc, "os_crypt"@) {
        Some(section) => text_member(section, "encrypted_key"@),
        None => None,
    }
}

/// What reading the wrapped key's text out of a Local State document gives.
pub open spec fn local_state_key_text(text: Seq<char>) -> Result<Seq<char>, KeyError> {
    match parsed_json(text) {
        None => Err(KeyError::Parse),
        Some(doc) => match encrypted_key_text(doc) {
            Some(k) => Ok(k),
            None => Err(KeyError::MissingField),
        },
    }
}

/// The characters of a string result, its error unchanged.
pub open spec fn text_result(r: Result<String, KeyError>) -> Result<Seq<char>, KeyError> {
    match r {
        Ok(s) => Ok(s@),
        Err(e) => Err(e),
    }
}

/// Where the document holds a string at `os_crypt.encrypted_key`, reading
/// the wrapped key's text returns exactly that string, unmodified.
pub proof fn lemma_parser_returns_field(
    text: Seq<char>,
    top: Map<Seq<char>, JsonTree>,
    section: Map<Seq<char>, JsonTree>,
    key: Seq<char>,
)
    requires
        parsed_json(text) == Some(JsonTree::Object(top)),
        top.contains_key("os_crypt"@),
        top["os_crypt"@] == JsonTree::Object(section),
        section.contains_key("encrypted_key"@),
        section["encrypted_key"@] == JsonTree::Text(key),
    ensures
        local_state_key_text(text) == Ok::<Seq<char>, KeyError>(key),
{
}

/// Reads the base64 text of the wrapped key out of a Local State document.
/// The text is returned as it stands; it is not checked to be base64.
pub fn parse_local_state(text: &str) -> (r: Result<String, KeyError>)
    ensures
        text_result(r) == local_state_key_text(text@),
{
    let doc = match parse_json(text) {
        Ok(v) => v,
        Err(_) => return Err(KeyError::Parse),
    };
    let section = match member(&doc, "os_crypt") {
        Some(s) => s,
        None => return Err(KeyError::MissingField),
    };
    let key = match member(section, "encrypted_key") {
        Some(k) => k,
        None => return Err(KeyError::MissingField),
    };
    match text_of(key) {
        Some(s) => Ok(s),
        None => Err(KeyError::MissingField),
    }
}

} // verus!
