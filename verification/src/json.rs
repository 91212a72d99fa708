//! An in-memory model of a JSON document, and the trusted bridge that
//! produces one from raw text.
//!
//! The conversation decoder works entirely on [`JsonValue`], so every rule
//! about which fields a conversation needs is stated and verified over plain
//! values.

use vstd::prelude::*;

verus! {

/// A JSON document as a plain value.
///
/// Numbers that fit a signed 64-bit integer are kept as integers; any other
/// number (fractional or out of range) is kept as its source text in
/// [`JsonValue::NumText`], since no field of a conversation may hold one.
#[derive(Debug)]
pub enum JsonValue {
    Null,
    Bool(bool),
    Int(i64),
    NumText(String),
    Text(String),
    Arr(Vec<JsonValue>),
    Obj(Vec<(String, JsonValue)>),
}

/// The value that parsing a piece of text as JSON yields, or `None` when the
/// text is not JSON. The result depends on the text alone.
pub uninterp spec fn json_of(s: Seq<char>) -> Option<JsonValue>;

#[verifier::external_type_specification]
#[verifier::external_body]
pub struct ExValue(serde_json::Value);

/// Moves a `serde_json` value into the library's own JSON type, one arm per
/// variant. Trusted alongside [`parse_json_text`], which is its only caller:
/// together they realise `json_of`.
#[verifier::external_body]
fn from_value(v: serde_json::Value) -> JsonValue {
    match v {
        serde_json::Value::Null => JsonValue::Null,
        serde_json::Value::Bool(b) => JsonValue::Bool(b),
        serde_json::Value::Number(n) => match n.as_i64() {
            Some(i) => JsonValue::Int(i),
            None => JsonValue::NumText(n.to_string()),
        },
        serde_json::Value::String(s) => JsonValue::Text(s),
        serde_json::Value::Array(a) => JsonValue::Arr(a.into_iter().map(from_value).collect()),
        serde_json::Value::Object(m) => JsonValue::Obj(
            m.into_iter().map(|(k, x)| (k, from_value(x))).collect(),
        ),
    }
}

/// Relies on `serde_json::from_str::<serde_json::Value>`: it accepts the
/// JSON grammar up to the parser's nesting limit of 128 and returns the
/// document's value, which depends on the text alone; the error case
/// carries serde's own description.
#[verifier::external_body]
pub fn parse_json_text(s: &str) -> (r: Result<JsonValue, String>)
    ensures
        r matches Ok(v) ==> json_of(s@) == Some(v),
        r is Err ==> json_of(s@) is None,
{
    match serde_json::from_str::<serde_json::Value>(s) {
        Ok(v) => Ok(from_value(v)),
        Err(e) => Err(e.to_string()),
    }
}

/// The value under `key` in an object's entry list: the first entry whose key
/// matches, or `None` when no entry does.
pub open spec fn spec_lookup(entries: Seq<(String, JsonValue)>, key: Seq<char>) -> Option<JsonValue>
    decreases entries.len(),
{
    if entries.len() == 0 {
        None
    } else if entries[0].0@ == key {
        Some(entries[0].1)
    } else {
        spec_lookup(entries.drop_first(), key)
    }
}

/// Finds the value under `key` in an object's entry list.
pub fn lookup<'a>(entries: &'a Vec<(String, JsonValue)>, key: &str) -> (r: Option<&'a JsonValue>)
    ensures
        match r {
            Some(v) => spec_lookup(entries@, key@) == Some(*v),
            None => spec_lookup(entries@, key@) is None,
        },
{
    let owned_key = key.to_owned();
    let n = entries.len();
    let mut i: usize = 0;
    assert(entries@.skip(0) =~= entries@);
    while i < n
        invariant
            n == entries.len(),
            0 <= i <= n,
            owned_key@ == key@,
            spec_lookup(entries@, key@) == spec_lookup(entries@.skip(i as int), key@),
        decreases n - i,
    {
        if entries[i].0 == owned_key {
            assert(entries@.skip(i as int)[0] == entries@[i as int]);
            return Some(&entries[i].1);
        }
        assert(entries@.skip(i as int).drop_first() =~= entries@.skip(i + 1));
        i = i + 1;
    }
    assert(entries@.skip(n as int).len() == 0);
    None
}

} // verus!
