//! TOML documents as the `toml` crate parses them.

use crate::text::prints;
use vstd::prelude::*;

verus! {

/// `toml::map::Map`, the table type of the `toml` crate, kept opaque.
/// `toml::Table` is this map from `String` to `toml::Value`.
#[verifier::external_type_specification]
#[verifier::external_body]
#[verifier::reject_recursive_types(K)]
#[verifier::reject_recursive_types(V)]
pub struct ExTomlMap<K, V>(toml::map::Map<K, V>);

/// `toml::Value`, kept opaque.
#[verifier::external_type_specification]
#[verifier::external_body]
pub struct ExTomlValue(toml::Value);

/// `toml::de::Error`, kept opaque.
#[verifier::external_type_specification]
#[verifier::external_body]
pub struct ExTomlError(toml::de::Error);

/// What a description file's schema can read of a TOML value: a string, a
/// boolean, an array, or anything else.
pub enum Item {
    Text(Seq<char>),
    Flag(bool),
    List(Seq<Item>),
    Other,
}

/// What `toml::from_str` makes of a text: the top-level table that it
/// reads, key by key, or the words with which it refuses the text.
pub uninterp spec fn document_of(text: Seq<char>) -> Result<Map<Seq<char>, Item>, Seq<char>>;

/// The entries that a table holds, key by key.
pub uninterp spec fn table_items(table: toml::Table) -> Map<Seq<char>, Item>;

/// What a TOML value holds.
pub uninterp spec fn value_item(value: toml::Value) -> Item;

/// The items of a sequence of TOML values, in the same order.
pub open spec fn items_of(values: Seq<toml::Value>) -> Seq<Item> {
    values.map_values(|value: toml::Value| value_item(value))
}

/// Parses a document with `toml::from_str` into a `toml::Table`. The outcome
/// is a function of the text alone and is named [`document_of`]: the entries
/// of the table, or what the error prints.
#[verifier::external_body]
pub(crate) fn parse_document(text: &str) -> (parsed: Result<toml::Table, toml::de::Error>)
    ensures
        match parsed {
            Ok(table) => document_of(text@) == Ok::<Map<Seq<char>, Item>, Seq<char>>(
                table_items(table),
            ),
            Err(error) => document_of(text@) is Err && prints(error, document_of(text@)->Err_0),
        },
{
    toml::from_str::<toml::Table>(text)
}

/// Calls `toml::map::Map::get`: the value under a key, where the table has
/// that key.
#[verifier::external_body]
pub(crate) fn table_get<'a>(table: &'a toml::Table, key: &str) -> (found: Option<&'a toml::Value>)
    ensures
        match found {
            Some(value) => table_items(*table).contains_key(key@) && table_items(*table)[key@]
                == value_item(*value),
            None => !table_items(*table).contains_key(key@),
        },
{
    table.get(key)
}

/// Calls `toml::Value::as_str`: the text of a string value, `None` for every
/// other value.
#[verifier::external_body]
pub(crate) fn value_as_str<'a>(value: &'a toml::Value) -> (text: Option<&'a str>)
    ensures
        match text {
            Some(t) => value_item(*value) == Item::Text(t@),
            None => !(value_item(*value) is Text),
        },
{
    value.as_str()
}

/// Calls `toml::Value::as_bool`: the flag of a boolean value, `None` for
/// every other value.
#[verifier::external_body]
pub(crate) fn value_as_bool(value: &toml::Value) -> (flag: Option<bool>)
    ensures
        match flag {
            Some(b) => value_item(*value) == Item::Flag(b),
            None => !(value_item(*value) is Flag),
        },
{
    value.as_bool()
}

/// Calls `toml::Value::as_array`: the elements of an array value in their
/// order, `None` for every other value.
#[verifier::external_body]
pub(crate) fn value_as_array<'a>(value: &'a toml::Value) -> (elements: Option<
    &'a Vec<toml::Value>,
>)
    ensures
        match elements {
            Some(list) => value_item(*value) == Item::List(items_of(list@)),
            None => !(value_item(*value) is List),
        },
{
    value.as_array()
}

} // verus!
