//! JSON values as the library sees them, and the parse of a JSON text.

use vstd::prelude::*;

use crate::text::str_eq;

verus! {

/// A JSON value read by `serde_json`.
#[verifier::external_type_specification]
#[verifier::external_body]
pub struct ExJsonValue(serde_json::Value);

/// A JSON value: numbers are kept as their text; an object is its members
/// in the order the parser gives them.
#[derive(Debug)]
pub enum Json {
    Null,
    Bool(bool),
    Number(String),
    Str(String),
    Array(Vec<Json>),
    Object(Vec<(String, Json)>),
}

/// What `serde_json` makes of the text `body`: the value, or the message of
/// its error.
pub uninterp spec fn json_parse(body: Seq<char>) -> Result<Json, Seq<char>>;

/// The JSON value `v`, variant by variant.
#[verifier::external_body]
fn json_of_value(v: serde_json::Value) -> Json {
    match v {
        serde_json::Value::Null => Json::Null,
        serde_json::Value::Bool(b) => Json::Bool(b),
        serde_json::Value::Number(n) => Json::Number(n.to_string()),
        serde_json::Value::String(s) => Json::Str(s),
        serde_json::Value::Array(a) => Json::Array(a.into_iter().map(json_of_value).collect()),
        serde_json::Value::Object(o) => Json::Object(o.into_iter().map(|(k, x)| (k, json_of_value(x))).collect()),
    }
}

/// Parses `body` with `serde_json::from_str` into a `serde_json::Value` and
/// gives it as a `Json`, or the text of the error. Trusted, not proved: the
/// contract claims only that the result is what `serde_json` gives for this
/// text (`json_parse`); what that is, is left unsaid.
#[verifier::external_body]
pub(crate) fn parse_json(body: &str) -> (r: Result<Json, String>)
    ensures
        match r {
            Ok(j) => json_parse(body@) == Ok::<Json, Seq<char>>(j),
            Err(m) => json_parse(body@) == Err::<Json, Seq<char>>(m@),
        },
{
    match serde_json::from_str::<serde_json::Value>(body) {
        Ok(v) => Ok(json_of_value(v)),
        Err(e) => Err(e.to_string()),
    }
}

/// The value of the first member named `key` among `es`.
pub open spec fn member_value(es: Seq<(String, Json)>, key: Seq<char>) -> Option<Json>
    decreases es.len(),
{
    if es.len() == 0 {
        None
    } else if es[0].0@ == key {
        Some(es[0].1)
    } else {
        member_value(es.drop_first(), key)
    }
}

/// The member `key` of `j` (`Value::get` with a string): none unless `j` is
/// an object with such a member.
pub open spec fn json_get(j: Json, key: Seq<char>) -> Option<Json> {
    match j {
        Json::Object(es) => member_value(es@, key),
        _ => None,
    }
}

/// The value of the first member named `key` among `es`.
fn find_member<'a>(es: &'a Vec<(String, Json)>, key: &str) -> (r: Option<&'a Json>)
    ensures
        match member_value(es@, key@) {
            Some(v) => r matches Some(x) && *x == v,
            None => r is None,
        },
{
    let mut i: usize = 0;
    assert(es@.skip(0) =~= es@);
    while i < es.len()
        invariant
            i <= es@.len(),
            member_value(es@, key@) == member_value(es@.skip(i as int), key@),
        decreases es@.len() - i,
    {
        assert(es@.skip(i as int)[0] == es@[i as int]);
        if str_eq(es[i].0.as_str(), key) {
            return Some(&es[i].1);
        }
        assert(es@.skip(i as int).drop_first() =~= es@.skip(i + 1));
        i = i + 1;
    }
    None
}

/// The member `key` of `j`.
pub fn json_member<'a>(j: &'a Json, key: &str) -> (r: Option<&'a Json>)
    ensures
        match json_get(*j, key@) {
            Some(v) => r matches Some(x) && *x == v,
            None => r is None,
        },
{
    match j {
        Json::Object(es) => find_member(es, key),
        _ => None,
    }
}

} // verus!
