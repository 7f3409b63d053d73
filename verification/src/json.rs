//! The library's view of serde_json, which does the JSON work exactly
//! as the service's other language workers expect it.
//!
//! A `serde_json::Value` is opaque to the verifier, so what each
//! serde_json call returns is given a name: every call here is a
//! deterministic function of its arguments under the crate's default
//! features (maps are ordered B-trees, numbers carry no float
//! surprises a reparse could reorder). The wrappers' contracts speak
//! of those names, and the worker's own contracts are exact through
//! them.

use vstd::prelude::*;

verus! {

#[verifier::external_type_specification]
#[verifier::external_body]
pub struct ExValue(serde_json::Value);

/// What serde_json::from_str::<Value> returns for the text `s`:
/// `Some` exactly when `s` is one well-formed JSON document.
pub uninterp spec fn parsed_json(s: Seq<char>) -> Option<serde_json::Value>;

/// Whether serde_json's parser accepts `s` as one JSON document.
pub open spec fn json_wf(s: Seq<char>) -> bool {
    parsed_json(s) is Some
}

/// What serde_json::Value::get returns for `v` and the field name
/// `key`: `Some` exactly when `v` is an object with that field.
pub uninterp spec fn field_of(v: serde_json::Value, key: Seq<char>) -> Option<serde_json::Value>;

/// What serde_json::Value::as_i64 returns for `v`: `Some` exactly
/// when `v` is an integer number representable as an `i64`.
pub uninterp spec fn int_of(v: serde_json::Value) -> Option<i64>;

/// What serde_json::Value::as_str returns for `v`: the text exactly
/// when `v` is a JSON string.
pub uninterp spec fn str_of(v: serde_json::Value) -> Option<Seq<char>>;

/// What serde_json::Value::is_object returns for `v`.
pub uninterp spec fn is_object_of(v: serde_json::Value) -> bool;

/// What serde_json::to_string returns for `v`: its JSON encoding on
/// one line.
pub uninterp spec fn value_text(v: serde_json::Value) -> Seq<char>;

/// Relies on serde_json::from_str::<Value>: acceptance and result
/// depend on the text alone, and the recursion limit returns an error
/// rather than panicking.
#[verifier::external_body]
pub(crate) fn parse_json(s: &str) -> (r: Option<serde_json::Value>)
    ensures
        r == parsed_json(s@),
{
    serde_json::from_str(s).ok()
}

/// Relies on serde_json::Value::is_object.
#[verifier::external_body]
pub(crate) fn value_is_object(v: &serde_json::Value) -> (r: bool)
    ensures
        r == is_object_of(*v),
{
    v.is_object()
}

/// Relies on serde_json::Value::get: the field named `key` of an
/// object, `None` on other values or when the field is absent.
#[verifier::external_body]
pub(crate) fn value_get<'a>(v: &'a serde_json::Value, key: &str) -> (r: Option<
    &'a serde_json::Value,
>)
    ensures
        (r matches Some(f) ==> field_of(*v, key@) == Some(*f)),
        (r is None ==> field_of(*v, key@) is None),
{
    v.get(key)
}

/// Relies on serde_json::Value::as_i64.
#[verifier::external_body]
pub(crate) fn value_as_i64(v: &serde_json::Value) -> (r: Option<i64>)
    ensures
        r == int_of(*v),
{
    v.as_i64()
}

/// Relies on serde_json::Value::as_str.
#[verifier::external_body]
pub(crate) fn value_as_str<'a>(v: &'a serde_json::Value) -> (r: Option<&'a str>)
    ensures
        (r matches Some(s) ==> str_of(*v) == Some(s@)),
        (r is None ==> str_of(*v) is None),
{
    v.as_str()
}

/// Relies on Clone for serde_json::Value: a deep copy equal to the
/// original.
#[verifier::external_body]
pub(crate) fn value_clone(v: &serde_json::Value) -> (r: serde_json::Value)
    ensures
        r == *v,
{
    v.clone()
}

/// Relies on serde_json::Value::Object and serde_json::Map::new: the
/// empty JSON object, whose encoding is the two-character text `{}`.
#[verifier::external_body]
pub(crate) fn empty_object() -> (r: serde_json::Value)
    ensures
        is_object_of(r),
        value_text(r) == "{}"@,
{
    serde_json::Value::Object(serde_json::Map::new())
}

/// Relies on serde_json::to_string, which cannot fail for a `Value`:
/// keys are strings and the writer is a vector. The error arm is kept
/// against that reading being wrong, carried as text.
#[verifier::external_body]
pub(crate) fn to_json_text(v: &serde_json::Value) -> (r: Result<String, String>)
    ensures
        r is Ok,
        (r matches Ok(s) ==> s@ == value_text(*v)),
{
    match serde_json::to_string(v) {
        Ok(s) => Ok(s),
        Err(e) => Err(format!("{}", e)),
    }
}

} // verus!
