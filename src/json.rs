//! JSON documents as the library reads them: a tree that `serde_json` parses,
//! and lookups in it.

use vstd::prelude::*;

verus! {

#[verifier::external_type_specification]
#[verifier::external_body]
pub struct ExJsonError(serde_json::Error);

#[verifier::external_type_specification]
#[verifier::external_body]
pub struct ExJsonValue(serde_json::Value);

/// A JSON document. A number keeps the text that `serde_json` writes for it.
#[derive(Debug)]
pub enum JsonValue {
    Null,
    Bool(bool),
    Number(String),
    Str(String),
    Array(Vec<JsonValue>),
    /// The values of an object's members, and their names in the same order.
    Object(Vec<JsonValue>, Vec<String>),
}

/// The document that `body` holds, if it holds one.
pub uninterp spec fn json_of(body: Seq<u8>) -> Option<JsonValue>;

/// Relies on `serde_json::from_slice` into `serde_json::Value`: whether the bytes
/// hold a JSON document, and which, depends on the bytes alone.
#[verifier::external_body]
pub(crate) fn parse_json(body: &[u8]) -> (r: Result<JsonValue, serde_json::Error>)
    ensures
        r matches Ok(v) ==> json_of(body@) == Some(v),
        r is Err ==> json_of(body@) is None,
{
    serde_json::from_slice::<serde_json::Value>(body).map(json_value_from)
}

/// Moves a `serde_json::Value` into the tree above, node for node; a number
/// becomes the text of `serde_json::Number`'s `Display`.
#[verifier::external_body]
fn json_value_from(v: serde_json::Value) -> JsonValue {
    match v {
        serde_json::Value::Null => JsonValue::Null,
        serde_json::Value::Bool(b) => JsonValue::Bool(b),
        serde_json::Value::Number(n) => JsonValue::Number(n.to_string()),
        serde_json::Value::String(s) => JsonValue::Str(s),
        serde_json::Value::Array(a) => JsonValue::Array(a.into_iter().map(json_value_from).collect()),
        serde_json::Value::Object(o) => {
            let (names, values) = o.into_iter().map(|(k, x)| (k, json_value_from(x))).unzip();
            JsonValue::Object(values, names)
        },
    }
}

/// The value of the member of an object named `key`; of several, the last.
pub open spec fn json_field(names: Seq<String>, values: Seq<JsonValue>, key: Seq<char>) -> Option<
    JsonValue,
>
    decreases names.len(),
{
    if names.len() == 0 || values.len() < names.len() {
        None
    } else if names.last()@ == key {
        Some(values[names.len() - 1])
    } else {
        json_field(names.drop_last(), values, key)
    }
}

/// The member `key` of `v`, if `v` is an object that has one.
pub open spec fn json_member(v: JsonValue, key: Seq<char>) -> Option<JsonValue> {
    match v {
        JsonValue::Object(values, names) => json_field(names@, values@, key),
        _ => None,
    }
}

/// The string member `key` of `v`, if `v` is an object that has one.
pub open spec fn json_str_field(v: JsonValue, key: Seq<char>) -> Option<Seq<char>> {
    match json_member(v, key) {
        Some(JsonValue::Str(s)) => Some(s@),
        _ => None,
    }
}

/// Looks up the member `key` of `v`.
pub fn get_member<'a>(v: &'a JsonValue, key: &str) -> (r: Option<&'a JsonValue>)
    ensures
        match r {
            Some(m) => json_member(*v, key@) == Some(*m),
            None => json_member(*v, key@) is None,
        },
{
    match v {
        JsonValue::Object(values, names) => {
            if values.len() < names.len() {
                return None;
            }
            let mut i: usize = names.len();
            assert(names@.take(i as int) =~= names@);
            assert(json_member(*v, key@) == json_field(names@, values@, key@));
            while i > 0
                invariant
                    json_member(*v, key@) == json_field(names@, values@, key@),
                    i <= names.len() <= values.len(),
                    json_field(names@, values@, key@) == json_field(
                        names@.take(i as int),
                        values@,
                        key@,
                    ),
                decreases i,
            {
                assert(names@.take(i as int).drop_last() =~= names@.take(i - 1));
                assert(names@.take(i as int).last() == names@[i - 1]);
                if crate::text::str_eq(names[i - 1].as_str(), key) {
                    assert(json_field(names@.take(i as int), values@, key@) == Some(values@[i - 1]));
                    return Some(&values[i - 1]);
                }
                i = i - 1;
            }
            None
        },
        _ => None,
    }
}

/// The string member `key` of `v`.
pub fn get_str_field(v: &JsonValue, key: &str) -> (r: Option<String>)
    ensures
        match r {
            Some(s) => json_str_field(*v, key@) == Some(s@),
            None => json_str_field(*v, key@) is None,
        },
{
    match get_member(v, key) {
        Some(JsonValue::Str(s)) => Some(s.clone()),
        _ => None,
    }
}

} // verus!
