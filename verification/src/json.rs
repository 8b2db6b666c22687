//! JSON values.
//!
//! Payloads travel through the gateway as `serde_json::Value`. Verus cannot
//! look inside such a value, so this module gives it a mathematical model,
//! [`Json`], and states over that model what each `serde_json` operation used
//! by the crate does. Those statements are believed, not proved: every
//! function marked `external_body` here is one call into `serde_json` together
//! with the claim that its documentation makes.

use vstd::prelude::*;

verus! {

/// `serde_json::Value`: a JSON value, opaque to the verifier.
#[verifier::external_type_specification]
#[verifier::external_body]
pub struct ExValue(serde_json::Value);

/// The mathematical content of a JSON value.
///
/// A number is kept as the text that `serde_json` prints for it; nothing in
/// this crate computes with JSON numbers.
pub enum Json {
    Null,
    Bool(bool),
    Number(Seq<char>),
    String(Seq<char>),
    Array(Seq<Json>),
    Object(Map<Seq<char>, Json>),
}

impl Json {
    /// The member `key` of an object, if `self` is an object that has it.
    pub open spec fn member(self, key: Seq<char>) -> Option<Json> {
        match self {
            Json::Object(members) => if members.contains_key(key) {
                Some(members[key])
            } else {
                None
            },
            _ => None,
        }
    }

    /// The characters of a JSON string, if `self` is one.
    pub open spec fn as_string(self) -> Option<Seq<char>> {
        match self {
            Json::String(chars) => Some(chars),
            _ => None,
        }
    }

    /// The member `key` of an object as a string, if it is there and is one.
    pub open spec fn string_member(self, key: Seq<char>) -> Option<Seq<char>> {
        match self.member(key) {
            Some(m) => m.as_string(),
            None => None,
        }
    }
}

/// What a `serde_json::Value` holds.
pub uninterp spec fn json_model(v: serde_json::Value) -> Json;

/// What `serde_json::from_str::<Value>` makes of a text: the value it
/// parses to, or `None` where it reports an error.
pub uninterp spec fn json_parsed(text: Seq<char>) -> Option<Json>;

/// What `serde_json::from_slice::<Value>` makes of a byte string: the value
/// it parses to, or `None` where it reports an error.
pub uninterp spec fn json_parsed_bytes(bytes: Seq<u8>) -> Option<Json>;

/// The compact JSON text that `serde_json::to_string` prints for a value.
/// `serde_json` keeps the members of an object sorted by key, so the text
/// depends on nothing but what the value holds.
pub uninterp spec fn json_rendered(j: Json) -> Seq<char>;

/// `Value::Null`.
#[verifier::external_body]
pub(crate) fn json_null() -> (v: serde_json::Value)
    ensures
        json_model(v) == Json::Null,
{
    serde_json::Value::Null
}

/// `Value::Bool`: the JSON boolean `b`.
#[verifier::external_body]
pub(crate) fn json_bool(b: bool) -> (v: serde_json::Value)
    ensures
        json_model(v) == Json::Bool(b),
{
    serde_json::Value::Bool(b)
}

/// `Value::String`: the JSON string with the characters of `s`.
#[verifier::external_body]
pub(crate) fn json_string(s: String) -> (v: serde_json::Value)
    ensures
        json_model(v) == Json::String(s@),
{
    serde_json::Value::String(s)
}

/// `Value::is_null`: true exactly for the JSON null.
#[verifier::external_body]
pub(crate) fn json_is_null(v: &serde_json::Value) -> (b: bool)
    ensures
        b == (json_model(*v) == Json::Null),
{
    v.is_null()
}

/// `Value::as_str`: the characters of a JSON string, `None` for every other
/// kind of value.
#[verifier::external_body]
pub(crate) fn json_as_str(v: &serde_json::Value) -> (s: Option<&str>)
    ensures
        match s {
            Some(chars) => json_model(*v).as_string() == Some(chars@),
            None => json_model(*v).as_string() is None,
        },
{
    v.as_str()
}

/// `Value::get` with a string index: the member of an object under that key;
/// `None` where the value is no object or has no such member.
#[verifier::external_body]
pub(crate) fn json_get<'a>(v: &'a serde_json::Value, key: &str) -> (m: Option<&'a serde_json::Value>)
    ensures
        match m {
            Some(found) => json_model(*v).member(key@) == Some(json_model(*found)),
            None => json_model(*v).member(key@) is None,
        },
{
    v.get(key)
}

/// `Value::clone`: a copy that holds the same JSON.
#[verifier::external_body]
pub(crate) fn json_clone(v: &serde_json::Value) -> (copy: serde_json::Value)
    ensures
        copy == *v,
{
    v.clone()
}

/// `serde_json::from_str::<Value>`, with the error dropped.
#[verifier::external_body]
pub(crate) fn json_parse(text: &str) -> (v: Option<serde_json::Value>)
    ensures
        match v {
            Some(value) => json_parsed(text@) == Some(json_model(value)),
            None => json_parsed(text@) is None,
        },
{
    serde_json::from_str::<serde_json::Value>(text).ok()
}

/// `serde_json::from_slice::<Value>`, with the error dropped.
#[verifier::external_body]
pub(crate) fn json_parse_bytes(bytes: &[u8]) -> (v: Option<serde_json::Value>)
    ensures
        match v {
            Some(value) => json_parsed_bytes(bytes@) == Some(json_model(value)),
            None => json_parsed_bytes(bytes@) is None,
        },
{
    serde_json::from_slice::<serde_json::Value>(bytes).ok()
}

/// `serde_json::to_string` on a `Value`: its compact JSON text. Printing a
/// `Value` into a string does not fail; were it to, the text would be empty.
#[verifier::external_body]
pub(crate) fn json_text(v: &serde_json::Value) -> (text: String)
    ensures
        text@ == json_rendered(json_model(*v)),
{
    serde_json::to_string(v).unwrap_or_default()
}

} // verus!
