//! A parsed JSON document held as plain values, and readers that take typed
//! members out of an object by key.
use vstd::prelude::*;
use crate::error::ClientError;

verus! {

/// A parsed JSON document.
#[derive(Debug)]
pub enum Json {
    Null,
    Bool(bool),
    /// A number: `Some` with its value when it is an integer that fits in
    /// `i64`, `None` for any other number.
    Number(Option<i64>),
    Str(String),
    Array(Vec<Json>),
    /// Members in document order.
    Object(Vec<(String, Json)>),
}

/// The value of the first member named `key`.
pub open spec fn field_of(entries: Seq<(String, Json)>, key: Seq<char>) -> Option<Json>
    decreases entries.len(),
{
    if entries.len() == 0 {
        None
    } else if entries[0].0@ == key {
        Some(entries[0].1)
    } else {
        field_of(entries.drop_first(), key)
    }
}

/// The member `key` of `v`, where `v` is an object that has one.
pub open spec fn member_of(v: Json, key: Seq<char>) -> Option<Json> {
    match v {
        Json::Object(entries) => field_of(entries@, key),
        _ => None,
    }
}

pub open spec fn fits_i32(i: i64) -> bool {
    i32::MIN <= i <= i32::MAX
}

/// The text of a string value.
pub open spec fn text_of(v: Json) -> Seq<char> {
    match v {
        Json::Str(s) => s@,
        _ => Seq::empty(),
    }
}

/// The texts of a sequence of strings.
pub open spec fn texts_view(v: Seq<String>) -> Seq<Seq<char>> {
    v.map_values(|s: String| s@)
}

/// Member `key` of `v` as a boolean.
pub open spec fn bool_at(v: Json, key: Seq<char>) -> Option<bool> {
    match member_of(v, key) {
        Some(Json::Bool(b)) => Some(b),
        _ => None,
    }
}

/// Member `key` of `v` as a 32-bit integer.
pub open spec fn i32_at(v: Json, key: Seq<char>) -> Option<i32> {
    match member_of(v, key) {
        Some(Json::Number(Some(i))) => if fits_i32(i) {
            Some(i as i32)
        } else {
            None
        },
        _ => None,
    }
}

/// Member `key` of `v` as an optional 32-bit integer: a missing or null
/// member is `Some(None)`.
pub open spec fn opt_i32_at(v: Json, key: Seq<char>) -> Option<Option<i32>> {
    match member_of(v, key) {
        None => Some(None),
        Some(Json::Null) => Some(None),
        _ => match i32_at(v, key) {
            Some(i) => Some(Some(i)),
            None => None,
        },
    }
}

/// Member `key` of `v` as a string.
pub open spec fn text_at(v: Json, key: Seq<char>) -> Option<Seq<char>> {
    match member_of(v, key) {
        Some(Json::Str(s)) => Some(s@),
        _ => None,
    }
}

/// An array value whose items are all strings, as their texts.
pub open spec fn texts_of(v: Json) -> Option<Seq<Seq<char>>> {
    match v {
        Json::Array(items) => if forall|i: int| 0 <= i < items@.len() ==> (#[trigger] items@[i]) is Str {
            Some(items@.map_values(|x: Json| text_of(x)))
        } else {
            None
        },
        _ => None,
    }
}

/// Member `key` of `v` as an array of strings.
pub open spec fn texts_at(v: Json, key: Seq<char>) -> Option<Seq<Seq<char>>> {
    match member_of(v, key) {
        Some(x) => texts_of(x),
        None => None,
    }
}

/// The error for a member `key` that is missing or of the wrong type.
pub fn decode_failure(key: &str) -> (r: ClientError)
    ensures
        r matches ClientError::Decode(m) && m@ == key@,
{
    ClientError::Decode(String::from_str(key))
}

/// The value of the first member of `entries` named `key`.
pub fn find_field<'a>(entries: &'a Vec<(String, Json)>, key: &str) -> (r: Option<&'a Json>)
    ensures
        r is Some <==> field_of(entries@, key@) is Some,
        r matches Some(x) ==> field_of(entries@, key@) == Some(*x),
{
    let k = String::from_str(key);
    let mut i: usize = 0;
    assert(entries@.subrange(0, entries@.len() as int) =~= entries@);
    while i < entries.len()
        invariant
            i <= entries@.len(),
            k@ == key@,
            field_of(entries@, key@) == field_of(entries@.subrange(i as int, entries@.len() as int), key@),
        decreases entries@.len() - i,
    {
        assert(entries@.subrange(i as int, entries@.len() as int).drop_first()
            =~= entries@.subrange(i + 1, entries@.len() as int));
        if entries[i].0 == k {
            return Some(&entries[i].1);
        }
        i = i + 1;
    }
    None
}

/// The member `key` of `v`, where `v` is an object that has one.
pub fn member<'a>(v: &'a Json, key: &str) -> (r: Option<&'a Json>)
    ensures
        r is Some <==> member_of(*v, key@) is Some,
        r matches Some(x) ==> member_of(*v, key@) == Some(*x),
{
    match v {
        Json::Object(entries) => find_field(entries, key),
        _ => None,
    }
}

/// Reads member `key` of `v` as a boolean.
pub fn read_bool(v: &Json, key: &str) -> (r: Result<bool, ClientError>)
    ensures
        r is Ok <==> bool_at(*v, key@) is Some,
        r matches Ok(b) ==> bool_at(*v, key@) == Some(b),
        r matches Err(e) ==> e is Decode,
{
    match member(v, key) {
        Some(Json::Bool(b)) => Ok(*b),
        _ => Err(decode_failure(key)),
    }
}

/// Reads member `key` of `v` as a 32-bit integer.
pub fn read_i32(v: &Json, key: &str) -> (r: Result<i32, ClientError>)
    ensures
        r is Ok <==> i32_at(*v, key@) is Some,
        r matches Ok(n) ==> i32_at(*v, key@) == Some(n),
        r matches Err(e) ==> e is Decode,
{
    match member(v, key) {
        Some(Json::Number(Some(i))) => {
            if i32::MIN as i64 <= *i && *i <= i32::MAX as i64 {
                Ok(*i as i32)
            } else {
                Err(decode_failure(key))
            }
        },
        _ => Err(decode_failure(key)),
    }
}

/// Reads member `key` of `v` as an optional 32-bit integer; a missing or
/// null member reads as `None`.
pub fn read_opt_i32(v: &Json, key: &str) -> (r: Result<Option<i32>, ClientError>)
    ensures
        r is Ok <==> opt_i32_at(*v, key@) is Some,
        r matches Ok(n) ==> opt_i32_at(*v, key@) == Some(n),
        r matches Err(e) ==> e is Decode,
{
    match member(v, key) {
        None => Ok(None),
        Some(Json::Null) => Ok(None),
        Some(_) => {
            let n = read_i32(v, key)?;
            Ok(Some(n))
        },
    }
}

/// Reads member `key` of `v` as a string.
pub fn read_string(v: &Json, key: &str) -> (r: Result<String, ClientError>)
    ensures
        r is Ok <==> text_at(*v, key@) is Some,
        r matches Ok(s) ==> text_at(*v, key@) == Some(s@),
        r matches Err(e) ==> e is Decode,
{
    match member(v, key) {
        Some(Json::Str(s)) => Ok(s.clone()),
        _ => Err(decode_failure(key)),
    }
}

/// Reads an array of strings; `key` names it in the error.
pub fn read_texts(v: &Json, key: &str) -> (r: Result<Vec<String>, ClientError>)
    ensures
        r is Ok <==> texts_of(*v) is Some,
        r matches Ok(l) ==> texts_of(*v) == Some(texts_view(l@)),
        r matches Err(e) ==> e is Decode,
{
    let items = match v {
        Json::Array(items) => items,
        _ => {
            return Err(decode_failure(key));
        },
    };
    let mut out: Vec<String> = Vec::new();
    let mut i: usize = 0;
    while i < items.len()
        invariant
            i <= items@.len(),
            *v == Json::Array(*items),
            forall|j: int| 0 <= j < i ==> (#[trigger] items@[j]) is Str,
            texts_view(out@) =~= items@.subrange(0, i as int).map_values(|x: Json| text_of(x)),
        decreases items@.len() - i,
    {
        match &items[i] {
            Json::Str(s) => {
                let ghost prev = out@;
                out.push(s.clone());
                assert(texts_view(out@) =~= texts_view(prev).push(s@));
                assert(items@.subrange(0, i + 1) =~= items@.subrange(0, i as int).push(items@[i as int]));
            },
            _ => {
                return Err(decode_failure(key));
            },
        }
        assert(texts_view(out@) =~= items@.subrange(0, i + 1).map_values(|x: Json| text_of(x)));
        i = i + 1;
    }
    assert(items@.subrange(0, items@.len() as int) =~= items@);
    Ok(out)
}

/// Reads member `key` of `v` as an array of strings.
pub fn read_strings(v: &Json, key: &str) -> (r: Result<Vec<String>, ClientError>)
    ensures
        r is Ok <==> texts_at(*v, key@) is Some,
        r matches Ok(l) ==> texts_at(*v, key@) == Some(texts_view(l@)),
        r matches Err(e) ==> e is Decode,
{
    match member(v, key) {
        Some(x) => read_texts(x, key),
        None => Err(decode_failure(key)),
    }
}

} // verus!
