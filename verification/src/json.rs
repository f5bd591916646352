//! The calls into `serde_json` that the library makes, each behind a trusted
//! item whose contract is stated below it.

use vstd::prelude::*;

use crate::config::opt_text;
use crate::decimal::decimal_text;

verus! {

/// `serde_json::Value`, carried through as an opaque value.
#[verifier::external_type_specification]
#[verifier::external_body]
pub struct ExJsonValue(serde_json::Value);

/// `serde_json::Map`, the ordered JSON object that holds configuration overrides.
#[verifier::external_type_specification]
#[verifier::external_body]
#[verifier::reject_recursive_types(K)]
#[verifier::reject_recursive_types(V)]
pub struct ExJsonMap<K, V>(serde_json::Map<K, V>);

/// An object with no entries.
pub open spec fn no_entries() -> Map<Seq<char>, Seq<char>> {
    Map::empty()
}

/// The entries of a JSON object: each key with the compact JSON text of its value.
pub uninterp spec fn object_entries(m: serde_json::Map<String, serde_json::Value>) -> Map<Seq<char>, Seq<char>>;

/// The compact JSON text of a value, as `serde_json::Value`'s `Display` writes it.
pub uninterp spec fn value_text(v: serde_json::Value) -> Seq<char>;

/// The compact JSON text of an object whose entries are `entries`, as
/// `serde_json::Value::Object(..)`'s `Display` writes it.
pub uninterp spec fn object_text(entries: Map<Seq<char>, Seq<char>>) -> Seq<char>;

/// What `serde_json::from_str::<Vec<String>>` gives for `text`: the strings of
/// a JSON array of strings, or `None` where the text is not one.
pub uninterp spec fn parsed_string_array(text: Seq<char>) -> Option<Seq<Seq<char>>>;

/// What `serde_json::from_str::<serde_json::Value>` gives for `text`: the
/// parsed value, or `None` where the text is not JSON.
pub uninterp spec fn parsed_value(text: Seq<char>) -> Option<serde_json::Value>;

/// The elements of a JSON value that is an array (`Value::as_array`), or
/// `None` for any other value.
pub uninterp spec fn array_items(v: serde_json::Value) -> Option<Seq<serde_json::Value>>;

/// The text of a JSON value that is a string (`Value::as_str`), or `None` for
/// any other value.
pub uninterp spec fn string_value(v: serde_json::Value) -> Option<Seq<char>>;

/// The text of the string under `key` in a JSON object (`v[key].as_str()`),
/// or `None` where `v` is not an object, lacks `key`, or holds no string there.
pub uninterp spec fn field_text(v: serde_json::Value, key: Seq<char>) -> Option<Seq<char>>;

/// The unsigned integer under `key` in a JSON object (`v[key].as_u64()`), or
/// `None` where there is none that fits a `u64`.
pub uninterp spec fn field_unsigned(v: serde_json::Value, key: Seq<char>) -> Option<u64>;

/// The value under `key` in a JSON object (`v[key]`): `Null` where `v` is not
/// an object or lacks `key`.
pub uninterp spec fn field_value(v: serde_json::Value, key: Seq<char>) -> serde_json::Value;

/// Calls `serde_json::Map::new`; the contract claims the new object has no entries.
#[verifier::external_body]
pub(crate) fn object_new() -> (m: serde_json::Map<String, serde_json::Value>)
    ensures
        object_entries(m) == no_entries(),
{
    serde_json::Map::new()
}

/// Calls `serde_json::Map::insert`; the contract claims that the key now maps
/// to the inserted value's text and every other entry is kept (a `BTreeMap`
/// insert, which replaces the value of a key already present).
#[verifier::external_body]
pub(crate) fn object_insert(m: &mut serde_json::Map<String, serde_json::Value>, key: String, value: serde_json::Value)
    ensures
        object_entries(*final(m)) == object_entries(*old(m)).insert(key@, value_text(value)),
{
    m.insert(key, value);
}

/// Calls `serde_json::Map::is_empty`; the contract claims it is true exactly
/// when the object has no entries.
#[verifier::external_body]
pub(crate) fn object_is_empty(m: &serde_json::Map<String, serde_json::Value>) -> (b: bool)
    ensures
        b == (object_entries(*m) == no_entries()),
{
    m.is_empty()
}

/// Calls `serde_json::Map::clone`; the contract claims the copy has the same entries.
#[verifier::external_body]
pub(crate) fn object_clone(m: &serde_json::Map<String, serde_json::Value>) -> (c: serde_json::Map<String, serde_json::Value>)
    ensures
        object_entries(c) == object_entries(*m),
{
    m.clone()
}

/// Calls `to_string` on `serde_json::Value::Object` of a copy of `m`; the
/// contract claims the text is the named compact serialization of its entries.
#[verifier::external_body]
pub(crate) fn object_to_text(m: &serde_json::Map<String, serde_json::Value>) -> (s: String)
    ensures
        s@ == object_text(object_entries(*m)),
{
    serde_json::Value::Object(m.clone()).to_string()
}

/// Calls `serde_json::Value::from::<u64>`; the contract claims the value's
/// JSON text is the base-ten text of `n` (serde_json writes integers with `itoa`).
#[verifier::external_body]
pub(crate) fn unsigned_value(n: u64) -> (v: serde_json::Value)
    ensures
        value_text(v) == decimal_text(n as nat),
{
    serde_json::Value::from(n)
}

/// Calls `serde_json::from_str::<Vec<String>>`; the contract claims the result
/// is the named parse of `text` (the error, when there is one, is dropped).
#[verifier::external_body]
pub(crate) fn parse_string_array(text: &str) -> (r: Option<Vec<String>>)
    ensures
        match r {
            Some(v) => parsed_string_array(text@) == Some(v.deep_view()),
            None => parsed_string_array(text@).is_none(),
        },
{
    serde_json::from_str::<Vec<String>>(text).ok()
}

/// Calls `serde_json::from_str::<serde_json::Value>`; the contract claims the
/// result is the named parse of `text` (the error, when there is one, is dropped).
#[verifier::external_body]
pub(crate) fn parse_value(text: &str) -> (r: Option<serde_json::Value>)
    ensures
        r == parsed_value(text@),
{
    serde_json::from_str::<serde_json::Value>(text).ok()
}

/// Calls `serde_json::Value::as_array` and copies the elements; the contract
/// claims they are the named elements of `v`.
#[verifier::external_body]
pub(crate) fn value_items(v: &serde_json::Value) -> (r: Option<Vec<serde_json::Value>>)
    ensures
        match r {
            Some(items) => array_items(*v) == Some(items@),
            None => array_items(*v).is_none(),
        },
{
    v.as_array().cloned()
}

/// Calls `serde_json::Value::as_str`; the contract claims the result is the
/// named string text of `v`.
#[verifier::external_body]
pub(crate) fn value_string(v: &serde_json::Value) -> (r: Option<String>)
    ensures
        opt_text(r) == string_value(*v),
{
    v.as_str().map(|s| s.to_string())
}

/// Calls `serde_json::Value::as_str` on `v[key]`; the contract claims the
/// result is the named string field.
#[verifier::external_body]
pub(crate) fn value_field_text(v: &serde_json::Value, key: &str) -> (r: Option<String>)
    ensures
        opt_text(r) == field_text(*v, key@),
{
    v[key].as_str().map(|s| s.to_string())
}

/// Calls `serde_json::Value::as_u64` on `v[key]`; the contract claims the
/// result is the named unsigned field.
#[verifier::external_body]
pub(crate) fn value_field_unsigned(v: &serde_json::Value, key: &str) -> (r: Option<u64>)
    ensures
        r == field_unsigned(*v, key@),
{
    v[key].as_u64()
}

/// Calls `serde_json::Value`'s index by `key` and copies the result; the
/// contract claims it is the named field value.
#[verifier::external_body]
pub(crate) fn value_field(v: &serde_json::Value, key: &str) -> (r: serde_json::Value)
    ensures
        r == field_value(*v, key@),
{
    v[key].clone()
}

} // verus!
