//! The boundary to `serde_json`: the model of a JSON value that the contracts
//! of this crate speak of, and the calls into `serde_json`, whose contracts
//! are believed and not proved.

use vstd::prelude::*;

verus! {

/// A JSON number, as far as this crate reads one.
pub enum JsonNumber {
    /// A number that is held as an integer from 0 to `u64::MAX`.
    Unsigned(u64),
    /// Any other number.
    Other,
}

/// The mathematical model of a JSON value.
pub enum Json {
    Null,
    Bool(bool),
    Number(JsonNumber),
    Text(Seq<char>),
    Array(Seq<Json>),
    Object(Map<Seq<char>, Json>),
}

impl Json {
    /// The member under `key`, where this is an object that has one.
    pub open spec fn member(self, key: Seq<char>) -> Option<Json> {
        match self {
            Json::Object(members) if members.contains_key(key) => Some(members[key]),
            _ => None,
        }
    }

    /// The text, where this is a string.
    pub open spec fn as_text(self) -> Option<Seq<char>> {
        match self {
            Json::Text(text) => Some(text),
            _ => None,
        }
    }

    /// The count, where this is a number held as an unsigned integer.
    pub open spec fn as_count(self) -> Option<u64> {
        match self {
            Json::Number(JsonNumber::Unsigned(n)) => Some(n),
            _ => None,
        }
    }
}

/// `serde_json::Value`, a JSON value in memory. Nothing of it is seen here
/// but through [`json_of`].
#[verifier::external_type_specification]
#[verifier::external_body]
pub struct ExValue(serde_json::Value);

/// `serde_json::Error`, the error of a parse. Nothing of it is read.
#[verifier::external_type_specification]
#[verifier::external_body]
pub struct ExError(serde_json::Error);

/// What `serde_json::from_str` makes of a text: the value that it parses
/// to, or `None` where it reports an error.
pub uninterp spec fn parsed_json(text: Seq<char>) -> Option<Json>;

/// What a `serde_json::Value` holds.
pub uninterp spec fn json_of(value: serde_json::Value) -> Json;

/// `serde_json::from_str::<serde_json::Value>`: parses a whole text as one
/// JSON value. The contract claims that the outcome is a function of the
/// text alone, and gives it a name; it does not say which texts are JSON.
#[verifier::external_body]
pub(crate) fn parse_value(text: &str) -> (r: Result<serde_json::Value, serde_json::Error>)
    ensures
        match r {
            Ok(value) => parsed_json(text@) == Some(json_of(value)),
            Err(_) => parsed_json(text@) is None,
        },
{
    serde_json::from_str::<serde_json::Value>(text)
}

/// `serde_json::Value::get` with a string for the index. The contract
/// claims that it finds the member of an object under the key, and nothing
/// where the value is no object or has no member under that key.
#[verifier::external_body]
pub(crate) fn member<'a>(value: &'a serde_json::Value, key: &str) -> (r: Option<
    &'a serde_json::Value,
>)
    ensures
        match r {
            Some(found) => json_of(*value).member(key@) == Some(json_of(*found)),
            None => json_of(*value).member(key@) is None,
        },
{
    value.get(key)
}

/// `serde_json::Value::as_str`. The contract claims that it gives the text
/// of a string, and nothing for any other value.
#[verifier::external_body]
pub(crate) fn text_of<'a>(value: &'a serde_json::Value) -> (r: Option<&'a str>)
    ensures
        match r {
            Some(text) => json_of(*value).as_text() == Some(text@),
            None => json_of(*value).as_text() is None,
        },
{
    value.as_str()
}

/// `serde_json::Value::as_u64`. The contract claims that it gives the
/// integer of a number that is held as an unsigned integer, and nothing for
/// any other number or any other value.
#[verifier::external_body]
pub(crate) fn count_of(value: &serde_json::Value) -> (r: Option<u64>)
    ensures
        r == json_of(*value).as_count(),
{
    value.as_u64()
}

} // verus!
