//! The fields of a description file, and how each is read from a parsed
//! document.

use crate::document::{
    items_of, table_get, table_items, value_as_array, value_as_bool, value_as_str, Item,
};
use crate::text::texts_of;
use vstd::prelude::*;

verus! {

/// The fields of a volunteer description file.
#[derive(Clone, Copy, Debug, PartialEq, Eq, Structural)]
pub enum Field {
    FirstName,
    LastName,
    Barcode,
    Qualified,
    Picture,
    Deployment,
    Licenses,
    Qualifications,
    HideIndicator,
}

/// How a description file breaks the schema: a required field is absent,
/// or a field holds a value of the wrong type.
#[derive(Clone, Copy, Debug, PartialEq, Eq, Structural)]
pub enum SchemaFault {
    Missing(Field),
    Mistyped(Field),
}

/// The key under which a field stands in a description file.
pub open spec fn field_key(field: Field) -> Seq<char> {
    match field {
        Field::FirstName => "first_name"@,
        Field::LastName => "last_name"@,
        Field::Barcode => "barcode"@,
        Field::Qualified => "qualified"@,
        Field::Picture => "picture"@,
        Field::Deployment => "deployment"@,
        Field::Licenses => "licenses"@,
        Field::Qualifications => "qualifications"@,
        Field::HideIndicator => "hide_indicator"@,
    }
}

/// What the schema expects a field to hold, in words.
pub open spec fn field_shape(field: Field) -> Seq<char> {
    match field {
        Field::FirstName | Field::LastName | Field::Barcode | Field::Picture => "a string"@,
        Field::Qualified | Field::HideIndicator => "a boolean"@,
        Field::Deployment | Field::Licenses | Field::Qualifications => "an array of strings"@,
    }
}

/// The diagnostic for a fault.
pub open spec fn fault_text(fault: SchemaFault) -> Seq<char> {
    match fault {
        SchemaFault::Missing(field) => "missing field `"@ + field_key(field) + "`"@,
        SchemaFault::Mistyped(field) => "invalid type for field `"@ + field_key(field)
            + "`, expected "@ + field_shape(field),
    }
}

impl Field {
    /// The key of the field.
    pub fn key(self) -> (key: &'static str)
        ensures
            key@ == field_key(self),
    {
        match self {
            Field::FirstName => "first_name",
            Field::LastName => "last_name",
            Field::Barcode => "barcode",
            Field::Qualified => "qualified",
            Field::Picture => "picture",
            Field::Deployment => "deployment",
            Field::Licenses => "licenses",
            Field::Qualifications => "qualifications",
            Field::HideIndicator => "hide_indicator",
        }
    }

    /// What the field is expected to hold, in words.
    pub fn shape(self) -> (shape: &'static str)
        ensures
            shape@ == field_shape(self),
    {
        match self {
            Field::FirstName | Field::LastName | Field::Barcode | Field::Picture => "a string",
            Field::Qualified | Field::HideIndicator => "a boolean",
            Field::Deployment | Field::Licenses | Field::Qualifications => "an array of strings",
        }
    }
}

impl SchemaFault {
    /// The diagnostic for the fault.
    pub fn describe(&self) -> (text: String)
        ensures
            text@ == fault_text(*self),
    {
        match *self {
            SchemaFault::Missing(field) => {
                let mut text = String::from_str("missing field `");
                text.append(field.key());
                text.append("`");
                text
            },
            SchemaFault::Mistyped(field) => {
                let mut text = String::from_str("invalid type for field `");
                text.append(field.key());
                text.append("`, expected ");
                text.append(field.shape());
                text
            },
        }
    }
}

/// Whether an item is an array of strings.
pub open spec fn is_text_list(item: Item) -> bool {
    item matches Item::List(elements) && forall|i: int|
        0 <= i < elements.len() ==> #[trigger] elements[i] is Text
}

/// The strings of an array of strings, in its order.
pub open spec fn list_texts(item: Item) -> Seq<Seq<char>> {
    item->List_0.map_values(|element: Item| element->Text_0)
}

/// The string that a document holds under a required field.
pub open spec fn text_at(doc: Map<Seq<char>, Item>, field: Field) -> Result<
    Seq<char>,
    SchemaFault,
> {
    if !doc.contains_key(field_key(field)) {
        Err(SchemaFault::Missing(field))
    } else {
        match doc[field_key(field)] {
            Item::Text(text) => Ok(text),
            _ => Err(SchemaFault::Mistyped(field)),
        }
    }
}

/// The boolean that a document holds under a required field.
pub open spec fn flag_at(doc: Map<Seq<char>, Item>, field: Field) -> Result<bool, SchemaFault> {
    if !doc.contains_key(field_key(field)) {
        Err(SchemaFault::Missing(field))
    } else {
        match doc[field_key(field)] {
            Item::Flag(flag) => Ok(flag),
            _ => Err(SchemaFault::Mistyped(field)),
        }
    }
}

/// The boolean that a document holds under an optional field: `None` where
/// the field is absent.
pub open spec fn optional_flag_at(doc: Map<Seq<char>, Item>, field: Field) -> Result<
    Option<bool>,
    SchemaFault,
> {
    if !doc.contains_key(field_key(field)) {
        Ok(None)
    } else {
        match doc[field_key(field)] {
            Item::Flag(flag) => Ok(Some(flag)),
            _ => Err(SchemaFault::Mistyped(field)),
        }
    }
}

/// The strings that a document holds under a required field, in the order
/// of the file.
pub open spec fn texts_at(doc: Map<Seq<char>, Item>, field: Field) -> Result<
    Seq<Seq<char>>,
    SchemaFault,
> {
    if !doc.contains_key(field_key(field)) {
        Err(SchemaFault::Missing(field))
    } else if !is_text_list(doc[field_key(field)]) {
        Err(SchemaFault::Mistyped(field))
    } else {
        Ok(list_texts(doc[field_key(field)]))
    }
}

/// Reads a required string.
pub fn read_text(table: &toml::Table, field: Field) -> (read: Result<String, SchemaFault>)
    ensures
        match read {
            Ok(text) => text_at(table_items(*table), field) == Ok::<Seq<char>, SchemaFault>(text@),
            Err(fault) => text_at(table_items(*table), field) == Err::<Seq<char>, SchemaFault>(
                fault,
            ),
        },
{
    match table_get(table, field.key()) {
        None => Err(SchemaFault::Missing(field)),
        Some(value) => match value_as_str(value) {
            Some(text) => Ok(String::from_str(text)),
            None => Err(SchemaFault::Mistyped(field)),
        },
    }
}

/// Reads a required boolean.
pub fn read_flag(table: &toml::Table, field: Field) -> (read: Result<bool, SchemaFault>)
    ensures
        read == flag_at(table_items(*table), field),
{
    match table_get(table, field.key()) {
        None => Err(SchemaFault::Missing(field)),
        Some(value) => match value_as_bool(value) {
            Some(flag) => Ok(flag),
            None => Err(SchemaFault::Mistyped(field)),
        },
    }
}

/// Reads an optional boolean.
pub fn read_optional_flag(table: &toml::Table, field: Field) -> (read: Result<
    Option<bool>,
    SchemaFault,
>)
    ensures
        read == optional_flag_at(table_items(*table), field),
{
    match table_get(table, field.key()) {
        None => Ok(None),
        Some(value) => match value_as_bool(value) {
            Some(flag) => Ok(Some(flag)),
            None => Err(SchemaFault::Mistyped(field)),
        },
    }
}

/// Reads a required array of strings, keeping its order.
pub fn read_texts(table: &toml::Table, field: Field) -> (read: Result<Vec<String>, SchemaFault>)
    ensures
        match read {
            Ok(texts) => texts_at(table_items(*table), field) == Ok::<
                Seq<Seq<char>>,
                SchemaFault,
            >(texts_of(texts@)),
            Err(fault) => texts_at(table_items(*table), field) == Err::<
                Seq<Seq<char>>,
                SchemaFault,
            >(fault),
        },
{
    let value = match table_get(table, field.key()) {
        None => { return Err(SchemaFault::Missing(field)); },
        Some(value) => value,
    };
    let elements = match value_as_array(value) {
        None => { return Err(SchemaFault::Mistyped(field)); },
        Some(elements) => elements,
    };
    let ghost item = table_items(*table)[field_key(field)];
    let mut texts: Vec<String> = Vec::new();
    let mut index: usize = 0;
    while index < elements.len()
        invariant
            index <= elements.len(),
            texts@.len() == index,
            table_items(*table).contains_key(field_key(field)),
            item == table_items(*table)[field_key(field)],
            item == Item::List(items_of(elements@)),
            forall|i: int|
                0 <= i < index ==> #[trigger] items_of(elements@)[i] == Item::Text(texts@[i]@),
        decreases elements.len() - index,
    {
        match value_as_str(&elements[index]) {
            None => {
                assert(!(item->List_0[index as int] is Text));
                return Err(SchemaFault::Mistyped(field));
            },
            Some(text) => {
                texts.push(String::from_str(text));
            },
        }
        index = index + 1;
    }
    assert(is_text_list(item));
    assert(list_texts(item) =~= texts_of(texts@));
    Ok(texts)
}

} // verus!
