//! JSON documents as the relay reads them: parsed by `serde_json`, read
//! through a model of what a value holds.

use vstd::prelude::*;

verus! {

/// What a JSON value holds.
pub enum Json {
    Null,
    Bool(bool),
    /// A number, with the integer it stands for where that is one that fits
    /// an `i64`.
    Number(Option<i64>),
    Text(Seq<char>),
    Array(Seq<Json>),
    Object(Map<Seq<char>, Json>),
}

impl Json {
    /// The member under `key` of an object that has one, `Null` otherwise.
    pub open spec fn member(self, key: Seq<char>) -> Json {
        match self {
            Json::Object(members) => if members.contains_key(key) {
                members[key]
            } else {
                Json::Null
            },
            _ => Json::Null,
        }
    }

    /// The characters of a string value.
    pub open spec fn as_text(self) -> Option<Seq<char>> {
        match self {
            Json::Text(text) => Some(text),
            _ => None,
        }
    }

    /// The integer of a number that is one within `i64`.
    pub open spec fn as_integer(self) -> Option<i64> {
        match self {
            Json::Number(integer) => integer,
            _ => None,
        }
    }
}

/// `serde_json::Value`, a parsed JSON value. Nothing of its inside is
/// visible here; what it holds is named `json_of`.
#[verifier::external_type_specification]
#[verifier::external_body]
pub struct ExValue(serde_json::Value);

/// `serde_json::Error`, the reason why a text did not parse. It is carried,
/// never read.
#[verifier::external_type_specification]
#[verifier::external_body]
pub struct ExError(serde_json::Error);

/// What a `serde_json::Value` holds.
pub uninterp spec fn json_of(value: serde_json::Value) -> Json;

/// What `serde_json::from_str` reads from `text`: the document, or nothing
/// where the text is not one JSON value.
pub uninterp spec fn json_text(text: Seq<char>) -> Option<Json>;

/// `serde_json::from_str` at type `Value`. Nothing is claimed of the parser
/// but that the same text gives the same outcome: the document is named
/// `json_text`, and the call fails exactly where that has none.
#[verifier::external_body]
pub(crate) fn parse(text: &str) -> (parsed: Result<serde_json::Value, serde_json::Error>)
    ensures
        match parsed {
            Ok(value) => json_text(text@) == Some(json_of(value)),
            Err(_) => json_text(text@) is None,
        },
{
    serde_json::from_str::<serde_json::Value>(text)
}

/// Indexing a `serde_json::Value` by a string key: the member under that key
/// where the value is an object that has it, and a null value otherwise. It
/// does not panic.
#[verifier::external_body]
pub(crate) fn member<'a>(value: &'a serde_json::Value, key: &str) -> (found: &'a serde_json::Value)
    ensures
        json_of(*found) == json_of(*value).member(key@),
{
    &value[key]
}

/// `serde_json::Value::as_str`: the string of a string value, `None` for
/// every other value.
#[verifier::external_body]
pub(crate) fn as_text(value: &serde_json::Value) -> (text: Option<&str>)
    ensures
        match text {
            Some(found) => json_of(*value).as_text() == Some(found@),
            None => json_of(*value).as_text() is None,
        },
{
    value.as_str()
}

/// `serde_json::Value::as_i64`: the integer of a number that is one within
/// `i64`, `None` for every other value.
#[verifier::external_body]
pub(crate) fn as_integer(value: &serde_json::Value) -> (integer: Option<i64>)
    ensures
        integer == json_of(*value).as_integer(),
{
    value.as_i64()
}

} // verus!
