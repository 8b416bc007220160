//! JSON documents as a tree of plain values, and typed access to object members.
use vstd::prelude::*;

use crate::error::{Error, Field};
use crate::number::{decimal_of, parse_decimal, Decimal};

verus! {

/// A JSON value. Numbers are held as text, as serde_json's arbitrary-precision
/// numbers keep it (digits as written; an exponent gets an explicit sign).
#[derive(Debug)]
pub enum JsonValue {
    Null,
    Bool(bool),
    Number(String),
    String(String),
    Array(Vec<JsonValue>),
    Object(Vec<(String, JsonValue)>),
}

#[verifier::external_type_specification]
#[verifier::external_body]
pub struct ExSerdeJsonValue(serde_json::Value);

/// The document that serde_json reads from `bytes`, if they hold one.
pub uninterp spec fn json_document_of(bytes: Seq<u8>) -> Option<JsonValue>;

/// Rebuilds serde_json's tree as a `JsonValue`, variant for variant: the
/// conversion of `read_json`'s result.
#[verifier::external_body]
fn json_from_serde(v: serde_json::Value) -> JsonValue {
    match v {
        serde_json::Value::Null => JsonValue::Null,
        serde_json::Value::Bool(b) => JsonValue::Bool(b),
        serde_json::Value::Number(n) => JsonValue::Number(n.as_str().to_owned()),
        serde_json::Value::String(s) => JsonValue::String(s),
        serde_json::Value::Array(a) => JsonValue::Array(a.into_iter().map(json_from_serde).collect()),
        serde_json::Value::Object(m) => JsonValue::Object(
            m.into_iter().map(|(k, v)| (k, json_from_serde(v))).collect(),
        ),
    }
}

/// Reads a JSON document.
///
/// Relies on `serde_json::from_slice` into a `serde_json::Value`: it yields the
/// document that the bytes hold, or an error whose message is returned.
#[verifier::external_body]
pub(crate) fn read_json(bytes: &[u8]) -> (r: Result<JsonValue, String>)
    ensures
        r is Ok <==> json_document_of(bytes@) is Some,
        r matches Ok(v) ==> json_document_of(bytes@) == Some(v),
{
    serde_json::from_slice::<serde_json::Value>(bytes).map(json_from_serde).map_err(|e| e.to_string())
}

/// The value of the first entry whose key is `key`.
pub open spec fn lookup(entries: Seq<(String, JsonValue)>, key: Seq<char>) -> Option<JsonValue>
    decreases entries.len(),
{
    if entries.len() == 0 {
        None
    } else if entries[0].0@ == key {
        Some(entries[0].1)
    } else {
        lookup(entries.drop_first(), key)
    }
}

/// The member `key` of `v`, where `v` is an object that has one.
pub open spec fn member(v: JsonValue, key: Seq<char>) -> Option<JsonValue> {
    match v {
        JsonValue::Object(entries) => lookup(entries@, key),
        _ => None,
    }
}

proof fn lemma_lookup_at(entries: Seq<(String, JsonValue)>, key: Seq<char>, i: int)
    requires
        0 <= i <= entries.len(),
        forall|j: int| 0 <= j < i ==> (#[trigger] entries[j]).0@ != key,
    ensures
        i < entries.len() && entries[i].0@ == key ==> lookup(entries, key) == Some(entries[i].1),
        i == entries.len() ==> lookup(entries, key) is None,
    decreases i,
{
    if i > 0 {
        let rest = entries.drop_first();
        assert forall|j: int| 0 <= j < i - 1 implies (#[trigger] rest[j]).0@ != key by {
            assert(rest[j] == entries[j + 1]);
        }
        lemma_lookup_at(rest, key, i - 1);
    } else if entries.len() > 0 {
    }
}

/// The member `f` of `v`.
pub fn get_member<'a>(v: &'a JsonValue, f: Field) -> (r: Option<&'a JsonValue>)
    ensures
        r matches Some(x) ==> member(*v, f.key_spec()) == Some(*x),
        r is None ==> member(*v, f.key_spec()) is None,
{
    let key = f.key();
    match *v {
        JsonValue::Object(ref entries) => {
            let mut i: usize = 0;
            while i < entries.len()
                invariant
                    i <= entries@.len(),
                    *v == JsonValue::Object(*entries),
                    key@ == f.key_spec(),
                    forall|j: int| 0 <= j < i ==> (#[trigger] entries@[j]).0@ != key@,
                decreases entries.len() - i,
            {
                let same = entries[i].0 == key;
                if same {
                    proof {
                        assert(entries@[i as int].0@ == key@);
                        lemma_lookup_at(entries@, key@, i as int);
                    }
                    let entry = &entries[i];
                    return Some(&entry.1);
                }
                i = i + 1;
            }
            proof {
                lemma_lookup_at(entries@, key@, i as int);
            }
            None
        },
        _ => None,
    }
}

/// The string member `f` of `v`.
pub open spec fn string_member(v: JsonValue, f: Field) -> Result<String, Error> {
    match member(v, f.key_spec()) {
        Some(JsonValue::String(s)) => Ok(s),
        _ => Err(Error::Field(f)),
    }
}

/// The boolean member `f` of `v`.
pub open spec fn bool_member(v: JsonValue, f: Field) -> Result<bool, Error> {
    match member(v, f.key_spec()) {
        Some(JsonValue::Bool(b)) => Ok(b),
        _ => Err(Error::Field(f)),
    }
}

/// The optional string member `f` of `v`: absent and `null` both give `None`.
pub open spec fn optional_string_member(v: JsonValue, f: Field) -> Result<Option<String>, Error> {
    match member(v, f.key_spec()) {
        None => Ok(None),
        Some(JsonValue::Null) => Ok(None),
        Some(JsonValue::String(s)) => Ok(Some(s)),
        _ => Err(Error::Field(f)),
    }
}

/// A JSON number read as a decimal.
pub open spec fn decimal_value(v: JsonValue, f: Field) -> Result<Decimal, Error> {
    match v {
        JsonValue::Number(t) => match decimal_of(t@) {
            Some(d) => Ok(d),
            None => Err(Error::Number(t)),
        },
        _ => Err(Error::Field(f)),
    }
}

/// The number member `f` of `v`, read as a decimal.
pub open spec fn decimal_member(v: JsonValue, f: Field) -> Result<Decimal, Error> {
    match member(v, f.key_spec()) {
        Some(x) => decimal_value(x, f),
        None => Err(Error::Field(f)),
    }
}

/// The elements of the array member `f` of `v`.
pub open spec fn array_member(v: JsonValue, f: Field) -> Result<Seq<JsonValue>, Error> {
    match member(v, f.key_spec()) {
        Some(JsonValue::Array(items)) => Ok(items@),
        _ => Err(Error::Field(f)),
    }
}

pub fn read_string(v: &JsonValue, f: Field) -> (r: Result<String, Error>)
    ensures
        r == string_member(*v, f),
{
    match get_member(v, f) {
        Some(JsonValue::String(s)) => Ok(s.clone()),
        _ => Err(Error::Field(f)),
    }
}

pub fn read_bool(v: &JsonValue, f: Field) -> (r: Result<bool, Error>)
    ensures
        r == bool_member(*v, f),
{
    match get_member(v, f) {
        Some(JsonValue::Bool(b)) => Ok(*b),
        _ => Err(Error::Field(f)),
    }
}

pub fn read_optional_string(v: &JsonValue, f: Field) -> (r: Result<Option<String>, Error>)
    ensures
        r == optional_string_member(*v, f),
{
    match get_member(v, f) {
        None => Ok(None),
        Some(JsonValue::Null) => Ok(None),
        Some(JsonValue::String(s)) => Ok(Some(s.clone())),
        _ => Err(Error::Field(f)),
    }
}

pub fn read_decimal(v: &JsonValue, f: Field) -> (r: Result<Decimal, Error>)
    ensures
        r == decimal_value(*v, f),
{
    match v {
        JsonValue::Number(t) => match parse_decimal(t.as_str()) {
            Some(d) => Ok(d),
            None => Err(Error::Number(t.clone())),
        },
        _ => Err(Error::Field(f)),
    }
}

pub fn read_decimal_member(v: &JsonValue, f: Field) -> (r: Result<Decimal, Error>)
    ensures
        r == decimal_member(*v, f),
{
    match get_member(v, f) {
        Some(x) => read_decimal(x, f),
        None => Err(Error::Field(f)),
    }
}

pub fn read_array<'a>(v: &'a JsonValue, f: Field) -> (r: Result<&'a Vec<JsonValue>, Error>)
    ensures
        r matches Ok(items) ==> array_member(*v, f) == Ok::<Seq<JsonValue>, Error>(items@),
        r matches Err(e) ==> array_member(*v, f) == Err::<Seq<JsonValue>, Error>(e),
{
    match get_member(v, f) {
        Some(JsonValue::Array(items)) => Ok(items),
        _ => Err(Error::Field(f)),
    }
}

} // verus!
