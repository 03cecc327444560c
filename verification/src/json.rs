//! JSON values as the scrapers read them.
//!
//! JSON text is parsed with `serde_json`; the library reads the parsed value
//! through this type of its own.
use vstd::prelude::*;
use crate::text::{chars_of, str_eq};

verus! {

/// A JSON value. A number keeps what `serde_json::Value::as_i64` gives for
/// it: the integer when it is one that fits in an `i64`, else `None`.
/// An object keeps its members in order (keys are unique).
pub enum JsonValue {
    Null,
    Bool(bool),
    Number(Option<i64>),
    Str(String),
    Array(Vec<JsonValue>),
    Object(Vec<(String, JsonValue)>),
}

/// Member `key` of an object: the first member with that key.
pub open spec fn member(members: Seq<(String, JsonValue)>, key: Seq<char>) -> Option<JsonValue>
    decreases members.len(),
{
    if members.len() == 0 {
        None
    } else if members[0].0@ == key {
        Some(members[0].1)
    } else {
        member(members.subrange(1, members.len() as int), key)
    }
}

/// `Value::get(key)`: the member of an object, `None` for other values.
pub open spec fn jget(v: JsonValue, key: Seq<char>) -> Option<JsonValue> {
    match v {
        JsonValue::Object(m) => member(m@, key),
        _ => None,
    }
}

/// `Value::as_str`.
pub open spec fn jstr(v: JsonValue) -> Option<Seq<char>> {
    match v {
        JsonValue::Str(s) => Some(s@),
        _ => None,
    }
}

/// `Value::as_i64`.
pub open spec fn ji64(v: JsonValue) -> Option<i64> {
    match v {
        JsonValue::Number(n) => n,
        _ => None,
    }
}

/// `Value::as_array`.
pub open spec fn jarray(v: JsonValue) -> Option<Seq<JsonValue>> {
    match v {
        JsonValue::Array(a) => Some(a@),
        _ => None,
    }
}

/// `v.get(key).and_then(|x| x.as_str())`.
pub open spec fn get_str(v: JsonValue, key: Seq<char>) -> Option<Seq<char>> {
    match jget(v, key) {
        Some(x) => jstr(x),
        None => None,
    }
}

/// `v.get(key).and_then(|x| x.as_i64())`.
pub open spec fn get_i64(v: JsonValue, key: Seq<char>) -> Option<i64> {
    match jget(v, key) {
        Some(x) => ji64(x),
        None => None,
    }
}

/// `v.get(key).and_then(|x| x.as_array())`.
pub open spec fn get_array(v: JsonValue, key: Seq<char>) -> Option<Seq<JsonValue>> {
    match jget(v, key) {
        Some(x) => jarray(x),
        None => None,
    }
}

impl JsonValue {
    /// Member `key` of an object.
    pub fn get(&self, key: &str) -> (r: Option<&JsonValue>)
        ensures
            match r {
                Some(x) => jget(*self, key@) == Some(*x),
                None => jget(*self, key@) is None,
            },
    {
        match self {
            JsonValue::Object(m) => {
                let ghost all = m@;
                assert(all.subrange(0, all.len() as int) =~= all);
                assert(jget(*self, key@) == member(all, key@));
                let mut i: usize = 0;
                while i < m.len()
                    invariant
                        i <= m.len(),
                        all == m@,
                        jget(*self, key@) == member(all, key@),
                        member(all, key@) == member(all.subrange(i as int, all.len() as int), key@),
                    decreases m.len() - i,
                {
                    let ghost rest = all.subrange(i as int, all.len() as int);
                    assert(rest[0] == m@[i as int]);
                    assert(rest.subrange(1, rest.len() as int) =~= all.subrange(
                        i + 1,
                        all.len() as int,
                    ));
                    let k = chars_of(m[i].0.as_str());
                    if str_eq(key, &k) {
                        assert(rest[0].0@ == key@);
                        assert(member(rest, key@) == Some(rest[0].1));
                        let x = &m[i].1;
                        assert(*x == m@[i as int].1);
                        return Some(x);
                    }
                    i += 1;
                }
                None
            },
            _ => None,
        }
    }

    /// `Value::as_str`.
    pub fn as_str(&self) -> (r: Option<&String>)
        ensures
            match r {
                Some(s) => jstr(*self) == Some(s@),
                None => jstr(*self) is None,
            },
    {
        match self {
            JsonValue::Str(s) => Some(s),
            _ => None,
        }
    }

    /// `Value::as_i64`.
    pub fn as_i64(&self) -> (r: Option<i64>)
        ensures
            r == ji64(*self),
    {
        match self {
            JsonValue::Number(n) => *n,
            _ => None,
        }
    }

    /// `Value::as_array`.
    pub fn as_array(&self) -> (r: Option<&Vec<JsonValue>>)
        ensures
            match r {
                Some(a) => jarray(*self) == Some(a@),
                None => jarray(*self) is None,
            },
    {
        match self {
            JsonValue::Array(a) => Some(a),
            _ => None,
        }
    }
}

/// `v.get(key).and_then(|x| x.as_str())`, as characters.
pub fn get_str_exec(v: &JsonValue, key: &str) -> (r: Option<Vec<char>>)
    ensures
        crate::text::ov(r) == get_str(*v, key@),
{
    match v.get(key) {
        Some(x) => match x.as_str() {
            Some(s) => Some(chars_of(s.as_str())),
            None => None,
        },
        None => None,
    }
}

/// `v.get(key).and_then(|x| x.as_i64())`.
pub fn get_i64_exec(v: &JsonValue, key: &str) -> (r: Option<i64>)
    ensures
        r == get_i64(*v, key@),
{
    match v.get(key) {
        Some(x) => x.as_i64(),
        None => None,
    }
}

#[verifier::external_type_specification]
#[verifier::external_body]
pub struct ExSerdeValue(serde_json::Value);

/// What `serde_json::from_str::<serde_json::Value>` gives for a text, in the
/// library's form: `None` when the text is not JSON.
pub uninterp spec fn json_of(text: Seq<char>) -> Option<JsonValue>;

/// What `serde_json::from_str::<Vec<serde_json::Value>>` gives for a text, in
/// the library's form: `None` when the text is not a JSON array.
pub uninterp spec fn json_array_of(text: Seq<char>) -> Option<Seq<JsonValue>>;

/// The library's form of a `serde_json::Value`, member for member.
#[verifier::external_body]
fn from_serde(v: &serde_json::Value) -> JsonValue {
    match v {
        serde_json::Value::Null => JsonValue::Null,
        serde_json::Value::Bool(b) => JsonValue::Bool(*b),
        serde_json::Value::Number(n) => JsonValue::Number(n.as_i64()),
        serde_json::Value::String(s) => JsonValue::Str(s.clone()),
        serde_json::Value::Array(a) => JsonValue::Array(a.iter().map(from_serde).collect()),
        serde_json::Value::Object(m) => JsonValue::Object(m.iter().map(|(k, x)| (k.clone(), from_serde(x))).collect()),
    }
}

/// Calls `serde_json::from_str::<serde_json::Value>`; the result is named by
/// [`json_of`].
#[verifier::external_body]
pub(crate) fn parse_json(text: &str) -> (r: Option<JsonValue>)
    ensures
        r == json_of(text@),
{
    serde_json::from_str::<serde_json::Value>(text).ok().map(|v| from_serde(&v))
}

/// Calls `serde_json::from_str::<Vec<serde_json::Value>>`; the result is
/// named by [`json_array_of`].
#[verifier::external_body]
pub(crate) fn parse_json_array(text: &str) -> (r: Option<Vec<JsonValue>>)
    ensures
        r is Some == json_array_of(text@) is Some,
        r matches Some(v) ==> v@ == json_array_of(text@)->Some_0,
{
    serde_json::from_str::<Vec<serde_json::Value>>(text).ok().map(|v| v.iter().map(from_serde).collect())
}

/// The JSON value of an optional response text (`None` also when there is
/// no text).
pub open spec fn opt_json(body: Option<String>) -> Option<JsonValue> {
    match body {
        Some(b) => json_of(b@),
        None => None,
    }
}

/// The JSON array of an optional response text (`None` also when there is
/// no text).
pub open spec fn opt_json_array(body: Option<String>) -> Option<Seq<JsonValue>> {
    match body {
        Some(b) => json_array_of(b@),
        None => None,
    }
}

/// Parses an optional response text (see [`opt_json`]).
pub fn parse_opt_json(body: &Option<String>) -> (r: Option<JsonValue>)
    ensures
        r == opt_json(*body),
{
    match body {
        Some(b) => parse_json(b.as_str()),
        None => None,
    }
}

} // verus!
