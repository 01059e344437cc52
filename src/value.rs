use vstd::prelude::*;
use vstd::string::*;

verus! {

/// A JSON number as the payload carries it. A float is kept as its shortest
/// decimal text, which reads back to the same 64-bit value.
#[derive(Debug, PartialEq)]
pub enum JsonNumber {
    PosInt(u64),
    NegInt(i64),
    Float(String),
}

/// A structured value: what a payload holds before it is encoded and after it is decoded.
#[derive(Debug, PartialEq)]
pub enum Json {
    Null,
    Bool(bool),
    Number(JsonNumber),
    Str(String),
    Array(Vec<Json>),
    Object(Vec<(String, Json)>),
}

/// serde_json's own value type, carried opaquely between the conversions below.
#[verifier::external_type_specification]
#[verifier::external_body]
pub struct ExJsonValue(serde_json::Value);

/// serde_json's number type, carried opaquely between the conversions below.
#[verifier::external_type_specification]
#[verifier::external_body]
pub struct ExJsonNumber(serde_json::Number);

/// The value that the JSON text `s` denotes, if it is valid JSON.
pub uninterp spec fn json_text_value(s: Seq<char>) -> Option<Json>;

/// The MessagePack bytes of `v`, if it can be encoded.
pub uninterp spec fn msgpack_encoding(v: Json) -> Option<Seq<u8>>;

/// The value that the MessagePack bytes `b` decode to, if they are well formed.
pub uninterp spec fn msgpack_decoding(b: Seq<u8>) -> Option<Json>;

/// The value stored under `key` among `fields`, searching from index `i`.
pub open spec fn lookup_from(fields: Seq<(String, Json)>, key: Seq<char>, i: int) -> Option<Json>
    decreases fields.len() - i,
{
    if i < 0 || i >= fields.len() {
        None
    } else if fields[i].0@ == key {
        Some(fields[i].1)
    } else {
        lookup_from(fields, key, i + 1)
    }
}

/// The field `key` of `v`, when `v` is an object that has it.
pub open spec fn field(v: Json, key: Seq<char>) -> Option<Json> {
    match v {
        Json::Object(fields) => lookup_from(fields@, key, 0),
        _ => None,
    }
}

/// No two of `fields` have the same key.
pub open spec fn unique_keys(fields: Seq<(String, Json)>) -> bool {
    forall|i: int, j: int|
        0 <= i < j < fields.len() ==> (#[trigger] fields[i]).0@ != (#[trigger] fields[j]).0@
}

/// `s` as a string value.
pub open spec fn is_str(v: Json, s: Seq<char>) -> bool {
    v matches Json::Str(x) && x@ == s
}

/// Character-wise equality of two strings.
pub fn str_eq(a: &str, b: &str) -> (r: bool)
    ensures
        r == (a@ == b@),
{
    let n = a.unicode_len();
    if n != b.unicode_len() {
        return false;
    }
    let mut i: usize = 0;
    while i < n
        invariant
            n == a@.len(),
            n == b@.len(),
            i <= n,
            forall|j: int| 0 <= j < i ==> a@[j] == b@[j],
        decreases n - i,
    {
        if a.get_char(i) != b.get_char(i) {
            return false;
        }
        i = i + 1;
    }
    assert(a@ =~= b@);
    true
}

/// The field `key` of `v`, when `v` is an object that has it.
pub fn get_field<'a>(v: &'a Json, key: &str) -> (r: Option<&'a Json>)
    ensures
        r matches Some(x) ==> field(*v, key@) == Some(*x),
        r is None ==> field(*v, key@) is None,
{
    match v {
        Json::Object(fields) => {
            let mut i: usize = 0;
            while i < fields.len()
                invariant
                    i <= fields@.len(),
                    field(*v, key@) == lookup_from(fields@, key@, i as int),
                decreases fields@.len() - i,
            {
                let entry = &fields[i];
                if str_eq(entry.0.as_str(), key) {
                    assert(fields@[i as int].0@ == key@);
                    assert(lookup_from(fields@, key@, i as int) == Some(fields@[i as int].1));
                    return Some(&entry.1);
                }
                i = i + 1;
            }
            None
        },
        _ => None,
    }
}

/// The index of the first field named `key`, if any.
pub fn find_key(fields: &Vec<(String, Json)>, key: &str) -> (r: Option<usize>)
    ensures
        r matches Some(i) ==> i < fields@.len() && fields@[i as int].0@ == key@ && lookup_from(fields@, key@, 0) == Some(
            fields@[i as int].1,
        ),
        r is None ==> lookup_from(fields@, key@, 0) is None,
{
    let mut i: usize = 0;
    while i < fields.len()
        invariant
            i <= fields@.len(),
            lookup_from(fields@, key@, 0) == lookup_from(fields@, key@, i as int),
        decreases fields@.len() - i,
    {
        if str_eq(fields[i].0.as_str(), key) {
            return Some(i);
        }
        i = i + 1;
    }
    None
}

/// Moves the field `key` out of `v`.
pub fn take_field(v: Json, key: &str) -> (r: Option<Json>)
    ensures
        r == field(v, key@),
{
    match v {
        Json::Object(mut fields) => match find_key(&fields, key) {
            Some(i) => Some(fields.remove(i).1),
            None => None,
        },
        _ => None,
    }
}

/// Moves the fields `k1` and `k2`, which differ, out of `v`.
pub fn take_two_fields(v: Json, k1: &str, k2: &str) -> (r: (Option<Json>, Option<Json>))
    requires
        k1@ != k2@,
    ensures
        r.0 == field(v, k1@),
        r.1 == field(v, k2@),
{
    match v {
        Json::Object(mut fields) => {
            let ghost orig = fields@;
            let i1 = find_key(&fields, k1);
            let i2 = find_key(&fields, k2);
            match (i1, i2) {
                (Some(a), Some(b)) => {
                    assert(a != b);
                    if a < b {
                        let eb = fields.remove(b);
                        let ea = fields.remove(a);
                        (Some(ea.1), Some(eb.1))
                    } else {
                        let ea = fields.remove(a);
                        let eb = fields.remove(b);
                        (Some(ea.1), Some(eb.1))
                    }
                },
                (Some(a), None) => (Some(fields.remove(a).1), None),
                (None, Some(b)) => (None, Some(fields.remove(b).1)),
                (None, None) => (None, None),
            }
        },
        _ => (None, None),
    }
}

/// A string value holding `s`.
pub fn str_value(s: &str) -> (r: Json)
    ensures
        is_str(r, s@),
{
    Json::Str(String::from_str(s))
}

/// An empty object.
pub fn empty_object() -> (r: Json)
    ensures
        r matches Json::Object(f) && f@.len() == 0,
{
    Json::Object(Vec::new())
}

/// Relies on serde_json::from_str: parses JSON text; the result depends on the text alone.
#[verifier::external_body]
pub(crate) fn parse_json(s: &str) -> (r: Option<Json>)
    ensures
        r == json_text_value(s@),
{
    serde_json::from_str::<serde_json::Value>(s).ok().map(|j| from_json(&j))
}

/// Relies on rmp_serde::to_vec: the MessagePack encoding of the value.
#[verifier::external_body]
pub(crate) fn encode_msgpack(v: &Json) -> (r: Option<Vec<u8>>)
    ensures
        match r {
            Some(b) => msgpack_encoding(*v) == Some(b@),
            None => msgpack_encoding(*v) is None,
        },
{
    rmp_serde::to_vec(&to_json(v)?).ok()
}

/// Relies on rmp_serde::from_slice: decodes MessagePack bytes; the result depends on the bytes alone.
#[verifier::external_body]
pub(crate) fn decode_msgpack(b: &[u8]) -> (r: Option<Json>)
    ensures
        r == msgpack_decoding(b@),
{
    rmp_serde::from_slice::<serde_json::Value>(b).ok().map(|j| from_json(&j))
}

/// Converts a number into serde_json's form; `None` for float text that is no finite number.
#[verifier::external_body]
fn number_to_json(n: &JsonNumber) -> Option<serde_json::Value> {
    match n {
        JsonNumber::PosInt(n) => Some(serde_json::Value::from(*n)),
        JsonNumber::NegInt(n) => Some(serde_json::Value::from(*n)),
        JsonNumber::Float(s) => s.parse().ok().map(serde_json::Value::Number),
    }
}

/// Converts serde_json's number into a number.
#[verifier::external_body]
fn number_from_json(n: &serde_json::Number) -> JsonNumber {
    match (n.as_u64(), n.as_i64()) {
        (Some(u), _) => JsonNumber::PosInt(u),
        (None, Some(i)) => JsonNumber::NegInt(i),
        (None, None) => JsonNumber::Float(n.to_string()),
    }
}

/// Converts a value into serde_json's form; `None` for float text that is no finite number.
#[verifier::external_body]
fn to_json(v: &Json) -> Option<serde_json::Value> {
    Some(match v {
        Json::Null => serde_json::Value::Null,
        Json::Bool(b) => serde_json::Value::Bool(*b),
        Json::Number(n) => number_to_json(n)?,
        Json::Str(s) => serde_json::Value::String(s.clone()),
        Json::Array(a) => serde_json::Value::Array(a.iter().map(to_json).collect::<Option<_>>()?),
        Json::Object(o) => serde_json::Value::Object(
            o.iter().map(|(k, x)| Some((k.clone(), to_json(x)?))).collect::<Option<_>>()?,
        ),
    })
}

/// Converts serde_json's form into a value.
#[verifier::external_body]
fn from_json(j: &serde_json::Value) -> Json {
    match j {
        serde_json::Value::Null => Json::Null,
        serde_json::Value::Bool(b) => Json::Bool(*b),
        serde_json::Value::Number(n) => Json::Number(number_from_json(n)),
        serde_json::Value::String(s) => Json::Str(s.clone()),
        serde_json::Value::Array(a) => Json::Array(a.iter().map(from_json).collect()),
        serde_json::Value::Object(o) => Json::Object(o.iter().map(|(k, x)| (k.clone(), from_json(x))).collect()),
    }
}

} // verus!
