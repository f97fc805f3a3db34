//! JSON trees: the mathematical model of one, what `serde_json` holds of it,
//! and the reading of the members of an object.
//!
//! A `Value` of `serde_json` is opaque to the verifier. What it holds has a
//! name, `tree`, and each accessor that decoding calls is stated over that
//! name. The readers below are verified against those statements, and every
//! contract of decoding speaks of the tree alone.

use vstd::prelude::*;
use serde_json::Value;
use crate::error::DecodeError;

verus! {

/// A JSON tree `serde_json::Value`.
#[verifier::external_type_specification]
#[verifier::external_body]
pub struct ExValue(serde_json::Value);

/// A JSON tree as a mathematical value.
pub enum Json {
    /// The JSON null.
    Null,
    /// A JSON boolean.
    Bool(bool),
    /// A JSON number that is an integer.
    Int(int),
    /// A JSON number that is no integer. Nothing here depends on its value.
    Fraction,
    /// A JSON string.
    Text(Seq<char>),
    /// A JSON array, with its elements in their order.
    Array(Seq<Json>),
    /// A JSON object, with its members by their names.
    Object(Map<Seq<char>, Json>),
}

/// What a `Value` holds.
pub uninterp spec fn tree(v: Value) -> Json;

/// What the values of a sequence hold, in their order.
pub open spec fn trees(values: Seq<Value>) -> Seq<Json> {
    Seq::new(values.len(), |i: int| tree(values[i]))
}

/// `Value::get` with a string key: the member of that name where the value
/// is an object that has one, nothing otherwise.
#[verifier::external_body]
pub(crate) fn get<'a>(v: &'a Value, key: &str) -> (r: Option<&'a Value>)
    ensures
        match r {
            Some(m) => tree(*v) matches Json::Object(members) && members.contains_key(key@)
                && members[key@] == tree(*m),
            None => !(tree(*v) matches Json::Object(members) && members.contains_key(key@)),
        },
{
    v.get(key)
}

/// `Value::is_null`: whether the value is the JSON null.
#[verifier::external_body]
pub(crate) fn is_null(v: &Value) -> (r: bool)
    ensures
        r == (tree(*v) is Null),
{
    v.is_null()
}

/// `Value::is_object`: whether the value is a JSON object.
#[verifier::external_body]
pub(crate) fn is_object(v: &Value) -> (r: bool)
    ensures
        r == (tree(*v) is Object),
{
    v.is_object()
}

/// `Value::as_str`: the text where the value is a JSON string, nothing
/// otherwise.
#[verifier::external_body]
pub(crate) fn as_str<'a>(v: &'a Value) -> (r: Option<&'a str>)
    ensures
        match r {
            Some(s) => tree(*v) == Json::Text(s@),
            None => !(tree(*v) is Text),
        },
{
    v.as_str()
}

/// `Value::as_i64`: the number where the value is an integer that fits
/// `i64`, nothing otherwise.
#[verifier::external_body]
pub(crate) fn as_i64(v: &Value) -> (r: Option<i64>)
    ensures
        match r {
            Some(n) => tree(*v) == Json::Int(n as int),
            None => !(tree(*v) matches Json::Int(n) && i64::MIN <= n <= i64::MAX),
        },
{
    v.as_i64()
}

/// `Value::as_u64`: the number where the value is an integer that fits
/// `u64`, nothing otherwise.
#[verifier::external_body]
pub(crate) fn as_u64(v: &Value) -> (r: Option<u64>)
    ensures
        match r {
            Some(n) => tree(*v) == Json::Int(n as int),
            None => !(tree(*v) matches Json::Int(n) && u64::MIN <= n <= u64::MAX),
        },
{
    v.as_u64()
}

/// `Value::as_bool`: the truth value where the value is a JSON boolean,
/// nothing otherwise.
#[verifier::external_body]
pub(crate) fn as_bool(v: &Value) -> (r: Option<bool>)
    ensures
        match r {
            Some(b) => tree(*v) == Json::Bool(b),
            None => !(tree(*v) is Bool),
        },
{
    v.as_bool()
}

/// `Value::as_array`: the elements in their order where the value is a JSON
/// array, nothing otherwise.
#[verifier::external_body]
pub(crate) fn as_array<'a>(v: &'a Value) -> (r: Option<&'a Vec<Value>>)
    ensures
        match r {
            Some(items) => tree(*v) == Json::Array(trees(items@)),
            None => !(tree(*v) is Array),
        },
{
    v.as_array()
}

/// `Value::clone`: a value that holds what `v` holds.
#[verifier::external_body]
pub(crate) fn copy_of(v: &Value) -> (r: Value)
    ensures
        tree(r) == tree(*v),
{
    v.clone()
}

/// What an optional value holds.
pub open spec fn tree_in(v: Option<Value>) -> Option<Json> {
    match v {
        Some(v) => Some(tree(v)),
        None => None,
    }
}

/// The member of `t` under `key` that holds data: present and not null.
/// A tree that is no object has no member.
pub open spec fn member(t: Json, key: Seq<char>) -> Option<Json> {
    match t {
        Json::Object(members) => if members.contains_key(key) && !(members[key] is Null) {
            Some(members[key])
        } else {
            None
        },
        _ => None,
    }
}

/// Whether a member, where there is one, is a string.
pub open spec fn fits_text(m: Option<Json>) -> bool {
    m matches Some(x) ==> x is Text
}

/// The text of a member that is a string.
pub open spec fn text_in(m: Option<Json>) -> Option<Seq<char>> {
    match m {
        Some(Json::Text(t)) => Some(t),
        _ => None,
    }
}

/// The text of a member that is a string, and the empty text where there
/// is no member.
pub open spec fn text_or_empty(m: Option<Json>) -> Seq<char> {
    match text_in(m) {
        Some(t) => t,
        None => Seq::empty(),
    }
}

/// Whether a member, where there is one, is an integer that fits `i64`.
pub open spec fn fits_i64(m: Option<Json>) -> bool {
    m matches Some(x) ==> (x matches Json::Int(n) && i64::MIN <= n <= i64::MAX)
}

/// The number of a member that is an integer that fits `i64`.
pub open spec fn i64_in(m: Option<Json>) -> Option<i64> {
    match m {
        Some(Json::Int(n)) => Some(n as i64),
        _ => None,
    }
}

/// Whether a member, where there is one, is an integer that fits `i32`.
pub open spec fn fits_i32(m: Option<Json>) -> bool {
    m matches Some(x) ==> (x matches Json::Int(n) && i32::MIN <= n <= i32::MAX)
}

/// The number of a member that is an integer that fits `i32`.
pub open spec fn i32_in(m: Option<Json>) -> Option<i32> {
    match m {
        Some(Json::Int(n)) => Some(n as i32),
        _ => None,
    }
}

/// Whether a member, where there is one, is an integer that fits `u64`.
pub open spec fn fits_u64(m: Option<Json>) -> bool {
    m matches Some(x) ==> (x matches Json::Int(n) && u64::MIN <= n <= u64::MAX)
}

/// The number of a member that is an integer that fits `u64`.
pub open spec fn u64_in(m: Option<Json>) -> Option<u64> {
    match m {
        Some(Json::Int(n)) => Some(n as u64),
        _ => None,
    }
}

/// Whether a member, where there is one, is an integer that fits `u32`.
pub open spec fn fits_u32(m: Option<Json>) -> bool {
    m matches Some(x) ==> (x matches Json::Int(n) && u32::MIN <= n <= u32::MAX)
}

/// The number of a member that is an integer that fits `u32`.
pub open spec fn u32_in(m: Option<Json>) -> Option<u32> {
    match m {
        Some(Json::Int(n)) => Some(n as u32),
        _ => None,
    }
}

/// Whether a member, where there is one, is an integer that fits `u16`.
pub open spec fn fits_u16(m: Option<Json>) -> bool {
    m matches Some(x) ==> (x matches Json::Int(n) && u16::MIN <= n <= u16::MAX)
}

/// The number of a member that is an integer that fits `u16`.
pub open spec fn u16_in(m: Option<Json>) -> Option<u16> {
    match m {
        Some(Json::Int(n)) => Some(n as u16),
        _ => None,
    }
}

/// Whether a member, where there is one, is an integer that fits `u8`.
pub open spec fn fits_u8(m: Option<Json>) -> bool {
    m matches Some(x) ==> (x matches Json::Int(n) && u8::MIN <= n <= u8::MAX)
}

/// The number of a member that is an integer that fits `u8`.
pub open spec fn u8_in(m: Option<Json>) -> Option<u8> {
    match m {
        Some(Json::Int(n)) => Some(n as u8),
        _ => None,
    }
}

/// Whether a member, where there is one, is a boolean.
pub open spec fn fits_flag(m: Option<Json>) -> bool {
    m matches Some(x) ==> x is Bool
}

/// The truth value of a member that is a boolean.
pub open spec fn flag_in(m: Option<Json>) -> Option<bool> {
    match m {
        Some(Json::Bool(b)) => Some(b),
        _ => None,
    }
}

/// Whether every element of `items` is a string.
pub open spec fn all_text(items: Seq<Json>) -> bool {
    forall|i: int| 0 <= i < items.len() ==> #[trigger] items[i] is Text
}

/// The texts of elements that are strings, in their order.
pub open spec fn texts_of(items: Seq<Json>) -> Seq<Seq<char>> {
    Seq::new(items.len(), |i: int| items[i]->Text_0)
}

/// Whether a member, where there is one, is an array of strings.
pub open spec fn fits_texts(m: Option<Json>) -> bool {
    m matches Some(x) ==> (x matches Json::Array(items) && all_text(items))
}

/// The texts of a member that is an array of strings.
pub open spec fn texts_in(m: Option<Json>) -> Option<Seq<Seq<char>>> {
    match m {
        Some(Json::Array(items)) => Some(texts_of(items)),
        _ => None,
    }
}

/// The texts of a member that is an array of strings, and no texts where
/// there is no member.
pub open spec fn texts_or_none(m: Option<Json>) -> Seq<Seq<char>> {
    match texts_in(m) {
        Some(t) => t,
        None => Seq::empty(),
    }
}

/// The member of `v` under `key` that holds data.
pub(crate) fn find<'a>(v: &'a Value, key: &str) -> (r: Option<&'a Value>)
    ensures
        match r {
            Some(m) => member(tree(*v), key@) == Some(tree(*m)),
            None => member(tree(*v), key@) is None,
        },
{
    match get(v, key) {
        Some(m) => if is_null(m) {
            None
        } else {
            Some(m)
        },
        None => None,
    }
}

/// Reads a member that is a string where it is present.
pub(crate) fn text_field(v: &Value, key: &str) -> (r: Result<Option<String>, DecodeError>)
    ensures
        match r {
            Ok(t) => fits_text(member(tree(*v), key@)) && t.deep_view() == text_in(
                member(tree(*v), key@),
            ),
            Err(e) => e == DecodeError::WrongShape && !fits_text(member(tree(*v), key@)),
        },
{
    match find(v, key) {
        Some(m) => match as_str(m) {
            Some(s) => Ok(Some(s.to_owned())),
            None => Err(DecodeError::WrongShape),
        },
        None => Ok(None),
    }
}

/// Reads a member that is a string, and gives the empty string where it is
/// absent.
pub(crate) fn text_field_or_empty(v: &Value, key: &str) -> (r: Result<String, DecodeError>)
    ensures
        match r {
            Ok(t) => fits_text(member(tree(*v), key@)) && t@ == text_or_empty(
                member(tree(*v), key@),
            ),
            Err(e) => e == DecodeError::WrongShape && !fits_text(member(tree(*v), key@)),
        },
{
    match text_field(v, key)? {
        Some(t) => Ok(t),
        None => Ok(String::new()),
    }
}

/// Reads a member that is an integer that fits `i64` where it is present.
pub(crate) fn i64_field(v: &Value, key: &str) -> (r: Result<Option<i64>, DecodeError>)
    ensures
        match r {
            Ok(n) => fits_i64(member(tree(*v), key@)) && n == i64_in(member(tree(*v), key@)),
            Err(e) => e == DecodeError::WrongShape && !fits_i64(member(tree(*v), key@)),
        },
{
    match find(v, key) {
        Some(m) => match as_i64(m) {
            Some(n) => Ok(Some(n)),
            None => Err(DecodeError::WrongShape),
        },
        None => Ok(None),
    }
}

/// Reads a member that is an integer that fits `i32` where it is present.
pub(crate) fn i32_field(v: &Value, key: &str) -> (r: Result<Option<i32>, DecodeError>)
    ensures
        match r {
            Ok(n) => fits_i32(member(tree(*v), key@)) && n == i32_in(member(tree(*v), key@)),
            Err(e) => e == DecodeError::WrongShape && !fits_i32(member(tree(*v), key@)),
        },
{
    match find(v, key) {
        Some(m) => match as_i64(m) {
            Some(n) => if i32::MIN as i64 <= n && n <= i32::MAX as i64 {
                Ok(Some(n as i32))
            } else {
                Err(DecodeError::WrongShape)
            },
            None => Err(DecodeError::WrongShape),
        },
        None => Ok(None),
    }
}

/// Reads a member that is an integer that fits `u64` where it is present.
pub(crate) fn u64_field(v: &Value, key: &str) -> (r: Result<Option<u64>, DecodeError>)
    ensures
        match r {
            Ok(n) => fits_u64(member(tree(*v), key@)) && n == u64_in(member(tree(*v), key@)),
            Err(e) => e == DecodeError::WrongShape && !fits_u64(member(tree(*v), key@)),
        },
{
    match find(v, key) {
        Some(m) => match as_u64(m) {
            Some(n) => Ok(Some(n)),
            None => Err(DecodeError::WrongShape),
        },
        None => Ok(None),
    }
}

/// Reads a member that is an integer that fits `u32` where it is present.
pub(crate) fn u32_field(v: &Value, key: &str) -> (r: Result<Option<u32>, DecodeError>)
    ensures
        match r {
            Ok(n) => fits_u32(member(tree(*v), key@)) && n == u32_in(member(tree(*v), key@)),
            Err(e) => e == DecodeError::WrongShape && !fits_u32(member(tree(*v), key@)),
        },
{
    match find(v, key) {
        Some(m) => match as_u64(m) {
            Some(n) => if n <= u32::MAX as u64 {
                Ok(Some(n as u32))
            } else {
                Err(DecodeError::WrongShape)
            },
            None => Err(DecodeError::WrongShape),
        },
        None => Ok(None),
    }
}

/// Reads a member that is an integer that fits `u16` where it is present.
pub(crate) fn u16_field(v: &Value, key: &str) -> (r: Result<Option<u16>, DecodeError>)
    ensures
        match r {
            Ok(n) => fits_u16(member(tree(*v), key@)) && n == u16_in(member(tree(*v), key@)),
            Err(e) => e == DecodeError::WrongShape && !fits_u16(member(tree(*v), key@)),
        },
{
    match find(v, key) {
        Some(m) => match as_u64(m) {
            Some(n) => if n <= u16::MAX as u64 {
                Ok(Some(n as u16))
            } else {
                Err(DecodeError::WrongShape)
            },
            None => Err(DecodeError::WrongShape),
        },
        None => Ok(None),
    }
}

/// Reads a member that is an integer that fits `u8` where it is present.
pub(crate) fn u8_field(v: &Value, key: &str) -> (r: Result<Option<u8>, DecodeError>)
    ensures
        match r {
            Ok(n) => fits_u8(member(tree(*v), key@)) && n == u8_in(member(tree(*v), key@)),
            Err(e) => e == DecodeError::WrongShape && !fits_u8(member(tree(*v), key@)),
        },
{
    match find(v, key) {
        Some(m) => match as_u64(m) {
            Some(n) => if n <= u8::MAX as u64 {
                Ok(Some(n as u8))
            } else {
                Err(DecodeError::WrongShape)
            },
            None => Err(DecodeError::WrongShape),
        },
        None => Ok(None),
    }
}

/// Reads a member that is a boolean where it is present.
pub(crate) fn flag_field(v: &Value, key: &str) -> (r: Result<Option<bool>, DecodeError>)
    ensures
        match r {
            Ok(b) => fits_flag(member(tree(*v), key@)) && b == flag_in(member(tree(*v), key@)),
            Err(e) => e == DecodeError::WrongShape && !fits_flag(member(tree(*v), key@)),
        },
{
    match find(v, key) {
        Some(m) => match as_bool(m) {
            Some(b) => Ok(Some(b)),
            None => Err(DecodeError::WrongShape),
        },
        None => Ok(None),
    }
}

/// Reads a member that is an array of strings where it is present.
pub(crate) fn texts_field(v: &Value, key: &str) -> (r: Result<Option<Vec<String>>, DecodeError>)
    ensures
        match r {
            Ok(t) => fits_texts(member(tree(*v), key@)) && t.deep_view() == texts_in(
                member(tree(*v), key@),
            ),
            Err(e) => e == DecodeError::WrongShape && !fits_texts(member(tree(*v), key@)),
        },
{
    let items = match find(v, key) {
        Some(m) => match as_array(m) {
            Some(items) => items,
            None => {
                return Err(DecodeError::WrongShape);
            },
        },
        None => {
            return Ok(None);
        },
    };
    let mut out: Vec<String> = Vec::new();
    let mut i: usize = 0;
    while i < items.len()
        invariant
            i <= items.len(),
            out@.len() == i,
            member(tree(*v), key@) == Some(Json::Array(trees(items@))),
            forall|j: int| 0 <= j < i ==> tree(#[trigger] items@[j]) == Json::Text(out@[j]@),
        decreases items.len() - i,
    {
        match as_str(&items[i]) {
            Some(s) => {
                out.push(s.to_owned());
            },
            None => {
                assert(!(trees(items@)[i as int] is Text));
                return Err(DecodeError::WrongShape);
            },
        }
        i = i + 1;
    }
    assert(all_text(trees(items@)));
    assert(out.deep_view() =~= texts_of(trees(items@)));
    Ok(Some(out))
}

/// Reads a member that is an array of strings, and gives no strings where
/// it is absent.
pub(crate) fn texts_field_or_none(v: &Value, key: &str) -> (r: Result<Vec<String>, DecodeError>)
    ensures
        match r {
            Ok(t) => fits_texts(member(tree(*v), key@)) && t.deep_view() == texts_or_none(
                member(tree(*v), key@),
            ),
            Err(e) => e == DecodeError::WrongShape && !fits_texts(member(tree(*v), key@)),
        },
{
    match texts_field(v, key)? {
        Some(t) => Ok(t),
        None => {
            let t: Vec<String> = Vec::new();
            assert(t.deep_view() =~= Seq::<Seq<char>>::empty());
            Ok(t)
        },
    }
}

} // verus!
