//! JSON values as the rest of the library sees them.
//!
//! Records travel as `serde_json::Value`, which Verus treats as opaque. What the
//! logic reads of a value is its top-level shape: which kind of value it is, the
//! items of an array, the fields of an object. Nested values stay values.
use vstd::prelude::*;

verus! {

#[verifier::external_type_specification]
#[verifier::external_body]
pub struct ExValue(serde_json::Value);

/// The top level of a JSON value.
pub enum JsonShape {
    Null,
    Bool(bool),
    /// A number, with its value where it is an integer.
    Number(Option<int>),
    Str(Seq<char>),
    Array(Seq<serde_json::Value>),
    Object(Map<Seq<char>, serde_json::Value>),
}

/// What a `serde_json::Value` holds at its top level.
pub uninterp spec fn shape(v: serde_json::Value) -> JsonShape;

/// The value that `serde_json` decodes from a text, if the text is JSON.
pub uninterp spec fn parsed(text: Seq<char>) -> Option<serde_json::Value>;

pub open spec fn is_object(v: serde_json::Value) -> bool {
    shape(v) is Object
}

/// The fields of an object value.
pub open spec fn fields(v: serde_json::Value) -> Map<Seq<char>, serde_json::Value> {
    match shape(v) {
        JsonShape::Object(m) => m,
        _ => Map::empty(),
    }
}

/// The shape of an optional string once it is written as JSON.
pub open spec fn opt_str_shape(s: Option<Seq<char>>) -> JsonShape {
    match s {
        Some(t) => JsonShape::Str(t),
        None => JsonShape::Null,
    }
}

/// Relies on `serde_json::from_str`: decoding depends on the text alone.
#[verifier::external_body]
pub(crate) fn parse_json(text: &str) -> (r: Option<serde_json::Value>)
    ensures
        r == parsed(text@),
{
    serde_json::from_str(text).ok()
}

/// Relies on `Value::as_array`: the items of an array, `None` for any other value.
#[verifier::external_body]
pub(crate) fn array_items(v: &serde_json::Value) -> (r: Option<Vec<serde_json::Value>>)
    ensures
        match shape(*v) {
            JsonShape::Array(items) => r is Some && r->0@ == items,
            _ => r is None,
        },
{
    v.as_array().cloned()
}

/// Relies on `Value::get` with a `str` key: the field of an object, `None` when
/// the value is no object or lacks the key.
#[verifier::external_body]
pub(crate) fn field(v: &serde_json::Value, key: &str) -> (r: Option<serde_json::Value>)
    ensures
        match shape(*v) {
            JsonShape::Object(m) => if m.contains_key(key@) {
                r == Some(m[key@])
            } else {
                r is None
            },
            _ => r is None,
        },
{
    v.get(key).cloned()
}

/// Relies on `Value::as_str`: the text of a string value.
#[verifier::external_body]
pub(crate) fn string_text(v: &serde_json::Value) -> (r: Option<String>)
    ensures
        match shape(*v) {
            JsonShape::Str(s) => r is Some && r->0@ == s,
            _ => r is None,
        },
{
    v.as_str().map(str::to_string)
}

/// Relies on `Value::is_null`.
#[verifier::external_body]
pub(crate) fn is_null(v: &serde_json::Value) -> (r: bool)
    ensures
        r == (shape(*v) is Null),
{
    v.is_null()
}

/// Relies on `Value::as_object` and `Map::is_empty`: true of `{}` alone.
#[verifier::external_body]
pub(crate) fn is_empty_object(v: &serde_json::Value) -> (r: bool)
    ensures
        r == (shape(*v) == JsonShape::Object(Map::<Seq<char>, serde_json::Value>::empty())),
{
    v.as_object().map_or(false, serde_json::Map::is_empty)
}

/// Relies on `Value::String`.
#[verifier::external_body]
pub(crate) fn json_string(s: String) -> (r: serde_json::Value)
    ensures
        shape(r) == JsonShape::Str(s@),
{
    serde_json::Value::String(s)
}

/// Relies on `Value::Null`.
#[verifier::external_body]
pub(crate) fn json_null() -> (r: serde_json::Value)
    ensures
        shape(r) == JsonShape::Null,
{
    serde_json::Value::Null
}

/// Relies on `Value::from(u64)`: a number holding that integer.
#[verifier::external_body]
pub(crate) fn json_integer(n: u64) -> (r: serde_json::Value)
    ensures
        shape(r) == JsonShape::Number(Some(n as int)),
{
    serde_json::Value::from(n)
}

/// Relies on `Value::Array`.
#[verifier::external_body]
pub(crate) fn json_array(items: Vec<serde_json::Value>) -> (r: serde_json::Value)
    ensures
        shape(r) == JsonShape::Array(items@),
{
    serde_json::Value::Array(items)
}

/// Relies on `Value::Object` and `Map::new`: an object without fields.
#[verifier::external_body]
pub(crate) fn json_object() -> (r: serde_json::Value)
    ensures
        shape(r) == JsonShape::Object(Map::<Seq<char>, serde_json::Value>::empty()),
{
    serde_json::Value::Object(serde_json::Map::new())
}

/// Relies on `Value::as_object_mut` and `Map::insert`: sets a field of an
/// object, replacing one of the same key. Any other value is left as it is.
#[verifier::external_body]
pub(crate) fn insert_field(target: &mut serde_json::Value, key: String, value: serde_json::Value) -> (r: bool)
    ensures
        r == is_object(*old(target)),
        r ==> shape(*final(target)) == JsonShape::Object(fields(*old(target)).insert(key@, value)),
        !r ==> *final(target) == *old(target),
{
    match target.as_object_mut() {
        Some(map) => {
            map.insert(key, value);
            true
        }
        None => false,
    }
}

} // verus!
