//! The JSON surface of the vault format, built on `serde_json`.
//!
//! A parsed document is carried as an opaque `serde_json::Value`. What a
//! value holds is named by the uninterpreted abstraction `json_data_of`,
//! a ghost [`JsonData`] tree of plain values; every wrapper below states
//! exactly what its call returns in terms of that abstraction, so the
//! loaders' own contracts can owe success and completeness. Everything
//! the loaders do with the extracted plain values is verified; only the
//! parsing and the reads themselves are trusted.

use vstd::prelude::*;

verus! {

/// The content of a JSON value, as plain mathematical data: the ghost
/// abstraction that the wrappers below speak of. A number is carried as
/// its `i64` and `u64` readings, each present exactly when the number is
/// an integer that fits; strings are their character sequences; objects
/// are maps from member name to member content.
pub enum JsonData {
    Null,
    Bool(bool),
    Num { i: Option<i64>, u: Option<u64> },
    Str(Seq<char>),
    Arr(Seq<JsonData>),
    Obj(Map<Seq<char>, JsonData>),
}

/// What a `serde_json::Value` holds, abstracted to [`JsonData`]: a pure
/// function of the value, which every wrapper below is tied to.
pub uninterp spec fn json_data_of(v: serde_json::Value) -> JsonData;

/// What parsing a byte string as strict JSON yields: the abstraction of
/// the resulting document, or nothing when the input is malformed. A
/// pure function of the input bytes.
pub uninterp spec fn json_parsed_of(data: Seq<u8>) -> Option<JsonData>;

/// serde_json's document type, declared so values of it can pass through
/// signatures; what is inside stays opaque to the verifier and is only
/// reached through the wrappers below.
#[verifier::external_type_specification]
#[verifier::external_body]
pub struct ExValue(serde_json::Value);

/// Relies on serde_json::from_slice::<serde_json::Value>: parses a strict
/// JSON document, or fails on malformed input; the result depends on the
/// input bytes alone.
#[verifier::external_body]
pub fn json_parse(data: &[u8]) -> (r: Option<serde_json::Value>)
    ensures
        r matches Some(v) ==> json_parsed_of(data@) == Some(json_data_of(v)),
        r is None ==> json_parsed_of(data@) is None,
{
    match serde_json::from_slice::<serde_json::Value>(data) {
        Ok(v) => Some(v),
        Err(_) => None,
    }
}

/// Relies on serde_json::Value::get with a string index: the member of an
/// object under a name, or nothing when the value is no object or has no
/// such member.
#[verifier::external_body]
pub fn json_get<'a>(v: &'a serde_json::Value, key: &str) -> (r: Option<&'a serde_json::Value>)
    ensures
        r matches Some(x) ==> (json_data_of(*v) matches JsonData::Obj(m) && m.dom().contains(key@)
            && json_data_of(*x) == m[key@]),
        r is None ==> (json_data_of(*v) matches JsonData::Obj(m) ==> !m.dom().contains(key@)),
{
    v.get(key)
}

/// Relies on serde_json::Value::as_str: the UTF-8 bytes of a JSON string,
/// or nothing exactly when the value is no string.
#[verifier::external_body]
pub fn json_str_bytes(v: &serde_json::Value) -> (r: Option<Vec<u8>>)
    ensures
        r matches Some(b) ==> (json_data_of(*v) matches JsonData::Str(s) && b@
            == vstd::utf8::encode_utf8(s)),
        r is None ==> !(json_data_of(*v) is Str),
{
    v.as_str().map(|s| s.as_bytes().to_vec())
}

/// Relies on serde_json::Value::as_str: the text of a JSON string, or
/// nothing exactly when the value is no string.
#[verifier::external_body]
pub fn json_str_string(v: &serde_json::Value) -> (r: Option<String>)
    ensures
        r matches Some(st) ==> (json_data_of(*v) matches JsonData::Str(s) && st@ == s),
        r is None ==> !(json_data_of(*v) is Str),
{
    v.as_str().map(|s| s.to_string())
}

/// Relies on serde_json::Value::as_i64: the value of a JSON number when
/// it is an integer fitting in an i64, nothing otherwise.
#[verifier::external_body]
pub fn json_i64(v: &serde_json::Value) -> (r: Option<i64>)
    ensures
        r == (match json_data_of(*v) {
            JsonData::Num { i, .. } => i,
            _ => None::<i64>,
        }),
{
    v.as_i64()
}

/// Relies on serde_json::Value::as_u64: the value of a JSON number when
/// it is an unsigned integer fitting in a u64, nothing otherwise.
#[verifier::external_body]
pub fn json_u64(v: &serde_json::Value) -> (r: Option<u64>)
    ensures
        r == (match json_data_of(*v) {
            JsonData::Num { u, .. } => u,
            _ => None::<u64>,
        }),
{
    v.as_u64()
}

/// Relies on serde_json::Value::as_bool: the value of a JSON boolean,
/// nothing exactly when the value is none.
#[verifier::external_body]
pub fn json_bool(v: &serde_json::Value) -> (r: Option<bool>)
    ensures
        r == (match json_data_of(*v) {
            JsonData::Bool(b) => Some(b),
            _ => None::<bool>,
        }),
{
    v.as_bool()
}

/// Relies on serde_json::Value::as_array: how many elements a JSON array
/// holds, or nothing exactly when the value is no array.
#[verifier::external_body]
pub fn json_array_len(v: &serde_json::Value) -> (r: Option<usize>)
    ensures
        r matches Some(n) ==> (json_data_of(*v) matches JsonData::Arr(a) && n == a.len()),
        r is None ==> !(json_data_of(*v) is Arr),
{
    v.as_array().map(|a| a.len())
}

/// Relies on serde_json::Value::as_array and slice::get: the element of a
/// JSON array at an index, or nothing when the value is no array or the
/// index is out of range.
#[verifier::external_body]
pub fn json_array_get<'a>(v: &'a serde_json::Value, i: usize) -> (r: Option<
    &'a serde_json::Value,
>)
    ensures
        r matches Some(x) ==> (json_data_of(*v) matches JsonData::Arr(a) && i < a.len()
            && json_data_of(*x) == a[i as int]),
        r is None ==> (json_data_of(*v) matches JsonData::Arr(a) ==> i >= a.len()),
{
    v.as_array().and_then(|a| a.get(i))
}

/// Relies on serde_json::Value::as_object and serde_json::Map::keys: the
/// names of a JSON object's members — each exactly once, together
/// covering the whole object — or nothing exactly when the value is no
/// object.
#[verifier::external_body]
pub fn json_object_keys(v: &serde_json::Value) -> (r: Option<Vec<String>>)
    ensures
        r matches Some(keys) ==> (json_data_of(*v) matches JsonData::Obj(m) && (forall|ki: int|
            0 <= ki < keys@.len() ==> m.dom().contains((#[trigger] keys@[ki])@)) && (forall|
            k: Seq<char>,
        |
            m.dom().contains(k) ==> exists|ki: int|
                0 <= ki < keys@.len() && (#[trigger] keys@[ki])@ == k) && (forall|i: int, j: int|
            0 <= i < j < keys@.len() ==> keys@[i]@ != keys@[j]@)),
        r is None ==> !(json_data_of(*v) is Obj),
{
    v.as_object().map(|m| m.keys().cloned().collect())
}


/// A required string member's characters: present and a string, or nothing.
pub open spec fn spec_req_str(m: Map<Seq<char>, JsonData>, k: Seq<char>) -> Option<Seq<char>> {
    if m.dom().contains(k) {
        match m[k] {
            JsonData::Str(s) => Some(s),
            _ => None,
        }
    } else {
        None
    }
}

/// A required string member's UTF-8 bytes.
pub open spec fn spec_req_bytes(m: Map<Seq<char>, JsonData>, k: Seq<char>) -> Option<Seq<u8>> {
    match spec_req_str(m, k) {
        Some(s) => Some(vstd::utf8::encode_utf8(s)),
        None => None,
    }
}

/// A required integer member's i64 reading.
pub open spec fn spec_req_i64(m: Map<Seq<char>, JsonData>, k: Seq<char>) -> Option<i64> {
    if m.dom().contains(k) {
        match m[k] {
            JsonData::Num { i, .. } => i,
            _ => None,
        }
    } else {
        None
    }
}

/// A required integer member's u64 reading.
pub open spec fn spec_req_u64(m: Map<Seq<char>, JsonData>, k: Seq<char>) -> Option<u64> {
    if m.dom().contains(k) {
        match m[k] {
            JsonData::Num { u, .. } => u,
            _ => None,
        }
    } else {
        None
    }
}

/// An optional string member: outer None means a present member of the
/// wrong type (an error); inner None means the member is absent.
pub open spec fn spec_opt_str(m: Map<Seq<char>, JsonData>, k: Seq<char>) -> Option<
    Option<Seq<char>>,
> {
    if !m.dom().contains(k) {
        Some(None)
    } else {
        match m[k] {
            JsonData::Str(s) => Some(Some(s)),
            _ => None,
        }
    }
}

/// An optional string member's UTF-8 bytes, absent-tolerant like
/// [`spec_opt_str`].
pub open spec fn spec_opt_bytes(m: Map<Seq<char>, JsonData>, k: Seq<char>) -> Option<
    Option<Seq<u8>>,
> {
    match spec_opt_str(m, k) {
        Some(Some(s)) => Some(Some(vstd::utf8::encode_utf8(s))),
        Some(None) => Some(None),
        None => None,
    }
}

/// An optional integer member's i64 reading, absent-tolerant.
pub open spec fn spec_opt_i64(m: Map<Seq<char>, JsonData>, k: Seq<char>) -> Option<Option<i64>> {
    if !m.dom().contains(k) {
        Some(None)
    } else {
        match m[k] {
            JsonData::Num { i: Some(n), .. } => Some(Some(n)),
            _ => None,
        }
    }
}

/// An optional boolean member, absent-tolerant.
pub open spec fn spec_opt_bool(m: Map<Seq<char>, JsonData>, k: Seq<char>) -> Option<Option<bool>> {
    if !m.dom().contains(k) {
        Some(None)
    } else {
        match m[k] {
            JsonData::Bool(b) => Some(Some(b)),
            _ => None,
        }
    }
}

} // verus!
