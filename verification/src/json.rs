//! A plain JSON document tree and the lookups that the library performs on
//! provider and backend replies.
//!
//! Documents are parsed by `serde_json` behind the wrappers at the end of
//! this file and handed on in this form; every decision taken on their
//! content is made over this tree.
use vstd::prelude::*;

verus! {

/// A JSON number, kept as its textual form plus its value when it is a
/// non-negative integer that fits in `u64` (what `Number::as_u64` gives).
pub struct JsonNumber {
    pub text: String,
    pub as_u64: Option<u64>,
}

/// A JSON value. Object members keep their order; a key occurs at most once
/// in a parsed document.
pub enum JsonValue {
    Null,
    Bool(bool),
    Number(JsonNumber),
    Str(String),
    Array(Vec<JsonValue>),
    Object(Vec<(String, JsonValue)>),
}

/// The value of the first member named `key` among `entries`.
pub open spec fn entries_get(entries: Seq<(String, JsonValue)>, key: Seq<char>) -> Option<JsonValue>
    decreases entries.len(),
{
    if entries.len() == 0 {
        None
    } else if entries[0].0@ == key {
        Some(entries[0].1)
    } else {
        entries_get(entries.drop_first(), key)
    }
}

/// `value.get(key)`: the member `key` of an object, `None` for anything else.
pub open spec fn get_spec(v: JsonValue, key: Seq<char>) -> Option<JsonValue> {
    match v {
        JsonValue::Object(entries) => entries_get(entries@, key),
        _ => None,
    }
}

/// `value.as_array().and_then(|a| a.first())`.
pub open spec fn first_spec(v: JsonValue) -> Option<JsonValue> {
    match v {
        JsonValue::Array(items) => if items@.len() > 0 {
            Some(items@[0])
        } else {
            None
        },
        _ => None,
    }
}

/// `value.as_str()`.
pub open spec fn str_spec(v: JsonValue) -> Option<Seq<char>> {
    match v {
        JsonValue::Str(s) => Some(s@),
        _ => None,
    }
}

/// `value.as_u64()`.
pub open spec fn u64_spec(v: JsonValue) -> Option<u64> {
    match v {
        JsonValue::Number(n) => n.as_u64,
        _ => None,
    }
}

/// Lookup lifted over an optional value (`Option::and_then(|v| v.get(key))`).
pub open spec fn opt_get(v: Option<JsonValue>, key: Seq<char>) -> Option<JsonValue> {
    match v {
        Some(x) => get_spec(x, key),
        None => None,
    }
}

pub open spec fn opt_first(v: Option<JsonValue>) -> Option<JsonValue> {
    match v {
        Some(x) => first_spec(x),
        None => None,
    }
}

pub open spec fn opt_str(v: Option<JsonValue>) -> Option<Seq<char>> {
    match v {
        Some(x) => str_spec(x),
        None => None,
    }
}

pub open spec fn opt_u64(v: Option<JsonValue>) -> Option<u64> {
    match v {
        Some(x) => u64_spec(x),
        None => None,
    }
}

/// The member `key` of an object value.
pub fn json_get<'a>(v: &'a JsonValue, key: &String) -> (r: Option<&'a JsonValue>)
    ensures
        match r {
            Some(x) => get_spec(*v, key@) == Some(*x),
            None => get_spec(*v, key@) is None,
        },
{
    match v {
        JsonValue::Object(entries) => {
            let mut i: usize = 0;
            assert(entries@.skip(0) =~= entries@);
            while i < entries.len()
                invariant
                    get_spec(*v, key@) == entries_get(entries@, key@),
                    i <= entries@.len(),
                    entries_get(entries@, key@) == entries_get(entries@.skip(i as int), key@),
                decreases entries.len() - i,
            {
                proof {
                    assert(entries@.skip(i as int).drop_first() =~= entries@.skip(i + 1));
                }
                assert(entries@.skip(i as int)[0] == entries@[i as int]);
                if entries[i].0 == *key {
                    return Some(&entries[i].1);
                }
                i += 1;
            }
            None
        },
        _ => None,
    }
}

/// The first element of an array value.
pub fn json_first<'a>(v: &'a JsonValue) -> (r: Option<&'a JsonValue>)
    ensures
        match r {
            Some(x) => first_spec(*v) == Some(*x),
            None => first_spec(*v) is None,
        },
{
    match v {
        JsonValue::Array(items) => if items.len() > 0 {
            Some(&items[0])
        } else {
            None
        },
        _ => None,
    }
}

/// The text of a string value.
pub fn json_str<'a>(v: &'a JsonValue) -> (r: Option<&'a String>)
    ensures
        match r {
            Some(s) => str_spec(*v) == Some(s@),
            None => str_spec(*v) is None,
        },
{
    match v {
        JsonValue::Str(s) => Some(s),
        _ => None,
    }
}

/// The value of a non-negative integer number.
pub fn json_u64(v: &JsonValue) -> (r: Option<u64>)
    ensures
        r == u64_spec(*v),
{
    match v {
        JsonValue::Number(n) => n.as_u64,
        _ => None,
    }
}

/// `get` on an optional value.
pub fn opt_json_get<'a>(v: Option<&'a JsonValue>, key: &String) -> (r: Option<&'a JsonValue>)
    ensures
        match r {
            Some(x) => opt_get(
                match v {
                    Some(y) => Some(*y),
                    None => None,
                },
                key@,
            ) == Some(*x),
            None => opt_get(
                match v {
                    Some(y) => Some(*y),
                    None => None,
                },
                key@,
            ) is None,
        },
{
    match v {
        Some(x) => json_get(x, key),
        None => None,
    }
}

/// The text at `get(k1)` of the first element of `get(k0)` of `v`, then
/// `get(k2)`: the `choices[0].<k1>.<k2>` pattern of completion replies.
pub open spec fn first_choice_field_str(v: JsonValue, k1: Seq<char>, k2: Seq<char>) -> Option<
    Seq<char>,
> {
    opt_str(opt_get(opt_get(opt_first(get_spec(v, "choices"@)), k1), k2))
}

/// The `choices[0].<k1>.<k2>` string of a completion reply, when present.
pub fn first_choice_field(v: &JsonValue, k1: &String, k2: &String) -> (r: Option<String>)
    ensures
        match r {
            Some(s) => first_choice_field_str(*v, k1@, k2@) == Some(s@),
            None => first_choice_field_str(*v, k1@, k2@) is None,
        },
{
    let choices_key = "choices".to_owned();
    let choices = json_get(v, &choices_key);
    let first = match choices {
        Some(c) => json_first(c),
        None => None,
    };
    let a = match first {
        Some(f) => json_get(f, k1),
        None => None,
    };
    let b = match a {
        Some(x) => json_get(x, k2),
        None => None,
    };
    match b {
        Some(x) => match json_str(x) {
            Some(s) => Some(s.clone()),
            None => None,
        },
        None => None,
    }
}

/// `serde_json::Value`, a parsed JSON document on its way into the
/// library's form.
#[verifier::external_type_specification]
#[verifier::external_body]
pub struct ExSerdeJsonValue(serde_json::Value);

/// The document that `serde_json::from_str` reads from `text`, in the
/// library's form, or the text of the parse error.
pub uninterp spec fn json_parse(text: Seq<char>) -> Result<JsonValue, Seq<char>>;

/// The document that `serde_json::from_slice` reads from `bytes`, in the
/// library's form, or the text of the parse error.
pub uninterp spec fn json_parse_bytes(bytes: Seq<u8>) -> Result<JsonValue, Seq<char>>;

/// The conversion of a parsed `serde_json::Value` into a [`JsonValue`], one
/// variant for another, used by the two parsing wrappers below; a number
/// keeps its text and its `as_u64` value, an object its members in
/// `serde_json`'s order.
#[verifier::external_body]
fn json_of_value(v: serde_json::Value) -> JsonValue {
    match v {
        serde_json::Value::Null => JsonValue::Null,
        serde_json::Value::Bool(b) => JsonValue::Bool(b),
        serde_json::Value::Number(n) => JsonValue::Number(JsonNumber { text: n.to_string(), as_u64: n.as_u64() }),
        serde_json::Value::String(t) => JsonValue::Str(t),
        serde_json::Value::Array(xs) => JsonValue::Array(xs.into_iter().map(json_of_value).collect()),
        serde_json::Value::Object(m) => JsonValue::Object(m.into_iter().map(|(k, x)| (k, json_of_value(x))).collect()),
    }
}

/// `serde_json::from_str::<serde_json::Value>(text)`, in the library's form,
/// its error shown with `to_string`. The result is only named.
#[verifier::external_body]
pub(crate) fn parse_json(text: &str) -> (r: Result<JsonValue, String>)
    ensures
        match r {
            Ok(v) => json_parse(text@) == Ok::<JsonValue, Seq<char>>(v),
            Err(e) => json_parse(text@) == Err::<JsonValue, Seq<char>>(e@),
        },
{
    serde_json::from_str::<serde_json::Value>(text).map(json_of_value).map_err(|e| e.to_string())
}

/// `serde_json::from_slice::<serde_json::Value>(bytes)`, in the library's
/// form, its error shown with `to_string`. The result is only named.
#[verifier::external_body]
pub(crate) fn parse_json_bytes(bytes: &[u8]) -> (r: Result<JsonValue, String>)
    ensures
        match r {
            Ok(v) => json_parse_bytes(bytes@) == Ok::<JsonValue, Seq<char>>(v),
            Err(e) => json_parse_bytes(bytes@) == Err::<JsonValue, Seq<char>>(e@),
        },
{
    serde_json::from_slice::<serde_json::Value>(bytes).map(json_of_value).map_err(|e| e.to_string())
}

/// The JSON document that `text` holds, or the parser's error.
pub fn parse_json_document(text: &str) -> (r: Result<JsonValue, String>)
    ensures
        match r {
            Ok(v) => json_parse(text@) == Ok::<JsonValue, Seq<char>>(v),
            Err(e) => json_parse(text@) == Err::<JsonValue, Seq<char>>(e@),
        },
{
    parse_json(text)
}

} // verus!
