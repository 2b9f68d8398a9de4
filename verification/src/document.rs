//! The settings document as the store hands it out: a `serde_json::Value`.
//!
//! Verus cannot look inside such a value. Contracts speak of what it holds
//! through a model, [`Json`], and the library reads it through the two
//! accessors at the end of this file.

use serde_json::Value;
use vstd::prelude::*;

verus! {

/// What a JSON value holds. A number stands for itself only: nothing here
/// reads its digits.
pub enum Json {
    Null,
    Bool(bool),
    Number,
    Text(Seq<char>),
    Array(Seq<Json>),
    Object(Map<Seq<char>, Json>),
}

impl Json {
    /// The member under `key`, where this is an object that has one.
    pub open spec fn member(self, key: Seq<char>) -> Option<Json> {
        match self {
            Json::Object(members) => if members.contains_key(key) {
                Some(members[key])
            } else {
                None
            },
            _ => None,
        }
    }

    /// The characters, where this is a string.
    pub open spec fn text(self) -> Option<Seq<char>> {
        match self {
            Json::Text(chars) => Some(chars),
            _ => None,
        }
    }
}

/// `serde_json::Value`, carried through as it is.
#[verifier::external_type_specification]
#[verifier::external_body]
pub struct ExValue(serde_json::Value);

/// What `value` holds: null, a boolean, a number, a string with its
/// characters, an array with its elements in order, or an object with its
/// members by key.
pub uninterp spec fn json_view(value: Value) -> Json;

/// Calls `serde_json::Value::get` with a string index.
///
/// Trusted: where `value` is an object with a member under `key`, the result
/// is that member, borrowed from `value`; in every other case, also where
/// `value` is no object at all, it is `None`. The call does not panic and
/// changes nothing.
#[verifier::external_body]
pub(crate) fn member<'a>(value: &'a Value, key: &str) -> (found: Option<&'a Value>)
    ensures
        match found {
            Some(inner) => json_view(*value).member(key@) == Some(json_view(*inner)),
            None => json_view(*value).member(key@) is None,
        },
{
    value.get(key)
}

/// Calls `serde_json::Value::as_str`.
///
/// Trusted: where `value` is a string, the result is its characters,
/// borrowed from `value`; for a value of any other kind it is `None`. The
/// call does not panic and changes nothing.
#[verifier::external_body]
pub(crate) fn text<'a>(value: &'a Value) -> (found: Option<&'a str>)
    ensures
        match found {
            Some(chars) => json_view(*value).text() == Some(chars@),
            None => json_view(*value).text() is None,
        },
{
    value.as_str()
}

} // verus!
