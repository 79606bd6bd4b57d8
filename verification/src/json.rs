//! Untyped JSON values, held as `serde_json::Value` behind trusted items.
//!
//! A `serde_json::Value` is opaque here; what the decoders read of one is
//! described by `value_model`, an abstract picture of the value as plain
//! data. Every accessor below is specified against that picture, so that
//! decoding a member is, end to end, a function of the member's bytes.

use vstd::prelude::*;

verus! {

#[verifier::external_type_specification]
#[verifier::external_body]
pub struct ExValue(serde_json::Value);

/// The shape of a JSON value, as plain data.
///
/// `UInt` holds an integer representable as `u64`; `Int` holds one
/// representable as `i64` but not as `u64` (a negative integer); `NonInt`
/// stands for any other number (the decoders carry no such number onward,
/// so its magnitude is not modelled).
pub ghost enum JsonData {
    Null,
    Bool(bool),
    UInt(u64),
    Int(i64),
    NonInt,
    Str(Seq<char>),
    Arr(Seq<JsonData>),
    Obj(Seq<(Seq<char>, JsonData)>),
}

/// What a `serde_json::Value` holds. Two values with equal models are
/// indistinguishable to the decoders.
pub uninterp spec fn value_model(v: serde_json::Value) -> JsonData;

/// What `serde_json::from_slice` yields on these bytes: `None` where they are
/// not one well-formed JSON document, else the model of the parsed value.
pub uninterp spec fn spec_parse_json(bytes: Seq<u8>) -> Option<JsonData>;

/// The value under the first entry with this key, if any.
pub open spec fn obj_lookup(entries: Seq<(Seq<char>, JsonData)>, key: Seq<char>) -> Option<JsonData>
    decreases entries.len(),
{
    if entries.len() == 0 {
        None
    } else if entries[0].0 == key {
        Some(entries[0].1)
    } else {
        obj_lookup(entries.drop_first(), key)
    }
}

/// Relies on serde_json::Value::as_u64: `Some` exactly for an integer
/// representable as `u64`, with its exact value.
pub assume_specification [ serde_json::Value::as_u64 ](v: &serde_json::Value) -> (r: Option<u64>)
    ensures
        r == (match value_model(*v) {
            JsonData::UInt(n) => Some(n),
            _ => None::<u64>,
        }),
;

/// Relies on serde_json::Value::as_i64: `Some` exactly for an integer
/// representable as `i64`, with its exact value.
pub assume_specification [ serde_json::Value::as_i64 ](v: &serde_json::Value) -> (r: Option<i64>)
    ensures
        r == (match value_model(*v) {
            JsonData::UInt(n) => if n <= i64::MAX as u64 {
                Some(n as i64)
            } else {
                None::<i64>
            },
            JsonData::Int(n) => Some(n),
            _ => None::<i64>,
        }),
;

/// Relies on serde_json::Value::as_bool: `Some` exactly for a boolean.
pub assume_specification [ serde_json::Value::as_bool ](v: &serde_json::Value) -> (r: Option<bool>)
    ensures
        r == (match value_model(*v) {
            JsonData::Bool(b) => Some(b),
            _ => None::<bool>,
        }),
;

/// Relies on serde_json::Value::as_str: `Some` exactly for a string, with its
/// exact characters.
pub assume_specification<'a> [ serde_json::Value::as_str ](v: &'a serde_json::Value) -> (r: Option<
    &'a str,
>)
    ensures
        (r is Some <==> value_model(*v) is Str),
        r matches Some(s) ==> value_model(*v) == JsonData::Str(s@),
;

/// Relies on serde_json::Value::as_array: `Some` exactly for an array, with
/// its elements in order.
pub assume_specification<'a> [ serde_json::Value::as_array ](v: &'a serde_json::Value) -> (r:
    Option<&'a Vec<serde_json::Value>>)
    ensures
        (r is Some <==> value_model(*v) is Arr),
        r matches Some(a) ==> (match value_model(*v) {
            JsonData::Arr(elems) => a@.len() == elems.len() && (forall|i: int|
                0 <= i < a@.len() ==> value_model(#[trigger] a@[i]) == elems[i]),
            _ => false,
        }),
;

/// Relies on serde_json::Value::get: looks a key up in a JSON object; `None`
/// on a non-object value or an absent key.
#[verifier::external_body]
pub(crate) fn value_field<'a>(v: &'a serde_json::Value, key: &str) -> (r: Option<&'a serde_json::Value>)
    ensures
        (match value_model(*v) {
            JsonData::Obj(entries) => (r is Some <==> obj_lookup(entries, key@) is Some) && (
            r matches Some(f) ==> obj_lookup(entries, key@) == Some(value_model(*f))),
            _ => r is None,
        }),
{
    v.get(key)
}

/// Relies on serde_json::Value::as_object: the entries of a JSON object, in
/// the order the object's map yields them. The object is a map, so it holds
/// one entry per key: the keys are pairwise distinct.
#[verifier::external_body]
pub(crate) fn value_entries(v: &serde_json::Value) -> (r: Option<Vec<(String, serde_json::Value)>>)
    ensures
        (r is Some <==> value_model(*v) is Obj),
        r matches Some(es) ==> (match value_model(*v) {
            JsonData::Obj(entries) => es@.len() == entries.len() && (forall|i: int|
                0 <= i < es@.len() ==> (#[trigger] es@[i]).0@ == entries[i].0 && value_model(
                    es@[i].1,
                ) == entries[i].1),
            _ => false,
        }),
        r is Some ==> (match value_model(*v) {
            JsonData::Obj(entries) => forall|i: int, j: int|
                0 <= i < j < entries.len() ==> (#[trigger] entries[i]).0 != (
                #[trigger] entries[j]).0,
            _ => true,
        }),
{
    match v.as_object() {
        Some(m) => Some(m.iter().map(|(k, val)| (k.clone(), val.clone())).collect()),
        None => None,
    }
}

/// Relies on serde_json::Value::clone: a structurally equal value.
pub assume_specification [ <serde_json::Value as Clone>::clone ](v: &serde_json::Value) -> (r:
    serde_json::Value)
    ensures
        value_model(r) == value_model(*v),
;

/// Relies on serde_json::from_slice: parses these bytes as one JSON document.
#[verifier::external_body]
pub(crate) fn parse_json(bytes: &[u8]) -> (r: Option<serde_json::Value>)
    ensures
        (r is Some <==> spec_parse_json(bytes@) is Some),
        r matches Some(v) ==> spec_parse_json(bytes@) == Some(value_model(v)),
{
    serde_json::from_slice(bytes).ok()
}

} // verus!
