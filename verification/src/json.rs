//! A small JSON value model for the API wire bodies.
//!
//! Response bodies arrive as text. Parsing that text is delegated to
//! `serde_json` behind one trusted boundary; everything downstream —
//! looking up object fields and reading them into the typed payloads —
//! is verified code over [`JsonValue`].

use vstd::prelude::*;

verus! {

/// A JSON value as this client reads it. The wire protocol carries
/// only booleans, unsigned integers, strings, arrays and objects;
/// anything else (floating-point or negative numbers) is outside the
/// protocol and is represented as `Null`, so that a typed decode of
/// such a body fails instead of silently coercing.
#[derive(Debug)]
pub enum JsonValue {
    Null,
    Bool(bool),
    UInt(u64),
    Str(String),
    Arr(Vec<JsonValue>),
    Obj(Vec<(String, JsonValue)>),
}

/// What `serde_json::from_str::<serde_json::Value>` returns for a given
/// text, carried over into this crate's value model: `None` where the
/// text is not valid JSON, and otherwise the parsed value with numbers
/// outside `u64` mapped to `Null`.
pub uninterp spec fn json_of(text: Seq<char>) -> Option<JsonValue>;

#[verifier::external_type_specification]
#[verifier::external_body]
pub struct ExSerdeValue(serde_json::Value);

/// Relies on `serde_json::Value`: each of its variants maps to the
/// matching [`JsonValue`] variant, fields moved over one for one.
/// A `Number` that `Number::as_u64` cannot represent becomes `Null`.
#[verifier::external_body]
fn from_serde_value(v: serde_json::Value) -> JsonValue {
    match v {
        serde_json::Value::Null => JsonValue::Null,
        serde_json::Value::Bool(b) => JsonValue::Bool(b),
        serde_json::Value::Number(n) => match n.as_u64() {
            Some(u) => JsonValue::UInt(u),
            None => JsonValue::Null,
        },
        serde_json::Value::String(s) => JsonValue::Str(s),
        serde_json::Value::Array(a) => JsonValue::Arr(a.into_iter().map(from_serde_value).collect()),
        serde_json::Value::Object(o) => {
            JsonValue::Obj(o.into_iter().map(|p| (p.0, from_serde_value(p.1))).collect())
        },
    }
}

/// Relies on `serde_json::from_str::<serde_json::Value>`: parses a text
/// into a JSON value, or fails on malformed input. The result depends
/// on the text alone, which is what lets it carry the name [`json_of`].
#[verifier::external_body]
pub(crate) fn parse_json_text(text: &str) -> (r: Option<JsonValue>)
    ensures
        r == json_of(text@),
{
    match serde_json::from_str::<serde_json::Value>(text) {
        Ok(v) => Some(from_serde_value(v)),
        Err(_) => None,
    }
}

/// Relies on `str`'s `PartialEq`: two string slices are equal exactly
/// when their character sequences are.
#[verifier::external_body]
pub(crate) fn str_eq(a: &str, b: &str) -> (r: bool)
    ensures
        r == (a@ == b@),
{
    a == b
}

/// The first value bound to `key` in an object's entry list, if any.
pub open spec fn spec_obj_get(entries: Seq<(String, JsonValue)>, key: Seq<char>) -> Option<
    JsonValue,
>
    decreases entries.len(),
{
    if entries.len() == 0 {
        None
    } else if entries[0].0@ == key {
        Some(entries[0].1)
    } else {
        spec_obj_get(entries.drop_first(), key)
    }
}

/// Look up a field of a JSON object by key.
pub fn obj_get<'a>(entries: &'a Vec<(String, JsonValue)>, key: &str) -> (r: Option<&'a JsonValue>)
    ensures
        match r {
            Some(v) => spec_obj_get(entries@, key@) == Some(*v),
            None => spec_obj_get(entries@, key@) is None,
        },
{
    let n = entries.len();
    proof {
        assert(entries@.skip(0) =~= entries@);
    }
    for i in 0..n
        invariant
            n == entries@.len(),
            spec_obj_get(entries@, key@) == spec_obj_get(entries@.skip(i as int), key@),
    {
        let ghost rest = entries@.skip(i as int);
        proof {
            assert(rest.len() > 0);
            assert(rest[0] == entries@[i as int]);
            assert(rest.drop_first() =~= entries@.skip(i as int + 1));
        }
        if str_eq(entries[i].0.as_str(), key) {
            return Some(&entries[i].1);
        }
    }
    proof {
        assert(entries@.skip(n as int) =~= Seq::<(String, JsonValue)>::empty());
    }
    None
}

} // verus!
