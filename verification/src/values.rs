//! The values that the typesetting engine takes as input.

use typst::foundations::{Array, Dict, Str, Value};
use vstd::prelude::*;

verus! {

/// `typst::foundations::Value`, kept opaque.
#[verifier::external_type_specification]
#[verifier::external_body]
pub struct ExValue(Value);

/// `typst::foundations::Array`, kept opaque.
#[verifier::external_type_specification]
#[verifier::external_body]
pub struct ExArray(Array);

/// `typst::foundations::Dict`, kept opaque.
#[verifier::external_type_specification]
#[verifier::external_body]
pub struct ExDict(Dict);

/// The data that the template is handed: strings, booleans, arrays of data
/// and dictionaries of data.
pub enum Datum {
    Text(Seq<char>),
    Flag(bool),
    List(Seq<Datum>),
    Record(Map<Seq<char>, Datum>),
}

/// What an engine value holds.
pub uninterp spec fn value_datum(value: Value) -> Datum;

/// What an engine array holds, in its order.
pub uninterp spec fn array_items(array: Array) -> Seq<Datum>;

/// What an engine dictionary holds, key by key.
pub uninterp spec fn dict_entries(dict: Dict) -> Map<Seq<char>, Datum>;

/// The entries of a dictionary that holds nothing.
pub open spec fn no_entries() -> Map<Seq<char>, Datum> {
    Map::empty()
}

/// Makes a string value: `Value::Str` of `Str::from`.
#[verifier::external_body]
pub(crate) fn text_value(text: &str) -> (value: Value)
    ensures
        value_datum(value) == Datum::Text(text@),
{
    Value::Str(Str::from(text))
}

/// Makes a boolean value: `Value::Bool`.
#[verifier::external_body]
pub(crate) fn flag_value(flag: bool) -> (value: Value)
    ensures
        value_datum(value) == Datum::Flag(flag),
{
    Value::Bool(flag)
}

/// Makes an array value: `Value::Array`.
#[verifier::external_body]
pub(crate) fn list_value(items: Array) -> (value: Value)
    ensures
        value_datum(value) == Datum::List(array_items(items)),
{
    Value::Array(items)
}

/// Makes a dictionary value: `Value::Dict`.
#[verifier::external_body]
pub(crate) fn record_value(entries: Dict) -> (value: Value)
    ensures
        value_datum(value) == Datum::Record(dict_entries(entries)),
{
    Value::Dict(entries)
}

/// Calls `Array::new`: an array that holds nothing.
#[verifier::external_body]
pub(crate) fn empty_array() -> (array: Array)
    ensures
        array_items(array) == Seq::<Datum>::empty(),
{
    Array::new()
}

/// Calls `Array::push`: the value is added at the end.
#[verifier::external_body]
pub(crate) fn array_push(array: &mut Array, value: Value)
    ensures
        array_items(*final(array)) == array_items(*old(array)).push(value_datum(value)),
{
    array.push(value)
}

/// Calls `Dict::new`: a dictionary that holds nothing.
#[verifier::external_body]
pub(crate) fn empty_dict() -> (dict: Dict)
    ensures
        dict_entries(dict) == no_entries(),
{
    Dict::new()
}

/// Calls `Dict::insert` with the key as a `Str`: the value stands under the
/// key afterwards, and the other entries stay.
#[verifier::external_body]
pub(crate) fn dict_insert(dict: &mut Dict, key: &str, value: Value)
    ensures
        dict_entries(*final(dict)) == dict_entries(*old(dict)).insert(key@, value_datum(value)),
{
    dict.insert(Str::from(key), value)
}

} // verus!
