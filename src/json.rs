//! JSON documents in the library's own form, and the call into serde_json that
//! parses them.

use vstd::prelude::*;
use serde_json::Value;
use crate::cell::member_index;

verus! {

#[verifier::external_type_specification]
#[verifier::external_body]
pub struct ExValue(serde_json::Value);

/// A parsed JSON document. Object members are kept in the parser's order, with
/// names unique.
#[derive(Debug)]
pub enum Json {
    Null,
    Bool(bool),
    /// A number, converted to an integer by truncation toward zero (saturating at
    /// the bounds of `i64`); `None` where the parser offers no `f64` for it.
    Number(Option<i64>),
    Str(String),
    Array(Vec<Json>),
    Object(Vec<(String, Json)>),
}

/// The document that serde_json parses from `text`, in the library's form;
/// `None` where the text is not well-formed JSON.
pub uninterp spec fn parsed(text: Seq<char>) -> Option<Json>;

/// Relies on serde_json::from_str: parses `text` as one JSON document; the error
/// holds the parser's message.
#[verifier::external_body]
pub(crate) fn parse_json(text: &str) -> (r: Result<Json, String>)
    ensures
        match parsed(text@) {
            Some(d) => r == Ok::<Json, String>(d),
            None => r is Err,
        },
{
    match serde_json::from_str::<Value>(text) {
        Ok(v) => Ok(json_from_value(v)),
        Err(e) => Err(e.to_string()),
    }
}

/// Relies on serde_json::Value's variants and Number::as_f64: moves a parsed
/// value into the library's form, variant for variant.
#[verifier::external_body]
fn json_from_value(v: Value) -> Json {
    match v {
        Value::Null => Json::Null,
        Value::Bool(b) => Json::Bool(b),
        Value::Number(n) => Json::Number(n.as_f64().map(|f| f as i64)),
        Value::String(s) => Json::Str(s),
        Value::Array(a) => Json::Array(a.into_iter().map(json_from_value).collect()),
        Value::Object(m) => Json::Object(m.into_iter().map(|(k, x)| (k, json_from_value(x))).collect()),
    }
}

/// The member named `key` of an object; `None` for a missing member or another kind of value.
pub open spec fn json_member(j: Json, key: Seq<char>) -> Option<Json> {
    match j {
        Json::Object(ms) => match member_index(ms@, key) {
            Some(i) => Some(ms@[i].1),
            None => None,
        },
        _ => None,
    }
}

} // verus!
