//! What the configuration reads of TOML values, and the calls into the
//! `toml` crate that read them.

use vstd::prelude::*;

verus! {

#[verifier::external_type_specification]
#[verifier::external_body]
pub struct ExTomlValue(toml::Value);

#[verifier::external_type_specification]
#[verifier::external_body]
#[verifier::reject_recursive_types(K)]
#[verifier::reject_recursive_types(V)]
pub struct ExTomlMap<K, V>(toml::map::Map<K, V>);

#[verifier::external_type_specification]
#[verifier::external_body]
pub struct ExTomlDeError(toml::de::Error);

/// What a TOML value holds, as far as the configuration reads it: a string,
/// a boolean, an array, a table of named values, or anything else (a number,
/// a date).
pub enum TomlItem {
    Text(Seq<char>),
    Flag(bool),
    List(Seq<TomlItem>),
    Table(Map<Seq<char>, TomlItem>),
    Other,
}

/// Name for what a `toml::Value` holds.
pub uninterp spec fn toml_item(value: toml::Value) -> TomlItem;

/// Name for the entries of a `toml::Table`, keyed by their names.
pub uninterp spec fn toml_entries(table: toml::Table) -> Map<Seq<char>, TomlItem>;

/// Name for what `toml::Value::from_str` gives for a text: `None` where it
/// fails.
pub uninterp spec fn toml_document(text: Seq<char>) -> Option<TomlItem>;

/// Calls `str::parse::<toml::Value>`, that is `toml::Value::from_str`, which
/// reads the text as a TOML document. The contract claims only that the
/// result is the one named by `toml_document` for this text.
#[verifier::external_body]
pub(crate) fn parse_toml(text: &str) -> (r: Result<toml::Value, toml::de::Error>)
    ensures
        match r {
            Ok(value) => toml_document(text@) == Some(toml_item(value)),
            Err(_) => toml_document(text@) is None,
        },
{
    text.parse::<toml::Value>()
}

/// Calls `toml::Value::as_table`, which gives the table that a
/// `Value::Table` holds and `None` for any other value.
#[verifier::external_body]
pub(crate) fn value_as_table(value: &toml::Value) -> (r: Option<&toml::Table>)
    ensures
        match r {
            Some(table) => toml_item(*value) == TomlItem::Table(toml_entries(*table)),
            None => !(toml_item(*value) is Table),
        },
{
    value.as_table()
}

/// Calls `toml::Value::as_array`, which gives the elements of a
/// `Value::Array` in order and `None` for any other value.
#[verifier::external_body]
pub(crate) fn value_as_array(value: &toml::Value) -> (r: Option<&Vec<toml::Value>>)
    ensures
        match r {
            Some(elements) => toml_item(*value) is List && toml_item(*value)->List_0.len()
                == elements@.len() && forall|i: int|
                0 <= i < elements@.len() ==> toml_item(#[trigger] elements@[i]) == toml_item(
                    *value,
                )->List_0[i],
            None => !(toml_item(*value) is List),
        },
{
    value.as_array()
}

/// Calls `toml::Value::as_str`, which gives the string that a
/// `Value::String` holds and `None` for any other value.
#[verifier::external_body]
pub(crate) fn value_as_str(value: &toml::Value) -> (r: Option<&str>)
    ensures
        match r {
            Some(s) => toml_item(*value) == TomlItem::Text(s@),
            None => !(toml_item(*value) is Text),
        },
{
    value.as_str()
}

/// Calls `toml::Value::as_bool`, which gives the boolean that a
/// `Value::Boolean` holds and `None` for any other value.
#[verifier::external_body]
pub(crate) fn value_as_bool(value: &toml::Value) -> (r: Option<bool>)
    ensures
        match r {
            Some(b) => toml_item(*value) == TomlItem::Flag(b),
            None => !(toml_item(*value) is Flag),
        },
{
    value.as_bool()
}

/// Calls `toml::map::Map::contains_key`, which tells whether the table has
/// an entry of that name.
#[verifier::external_body]
pub(crate) fn table_contains_key(table: &toml::Table, key: &str) -> (r: bool)
    ensures
        r == toml_entries(*table).contains_key(key@),
{
    table.contains_key(key)
}

/// Calls `toml::map::Map::get`, which gives the value of the entry of that
/// name, and `None` where there is none.
#[verifier::external_body]
pub(crate) fn table_get<'a>(table: &'a toml::Table, key: &str) -> (r: Option<&'a toml::Value>)
    ensures
        match r {
            Some(value) => toml_entries(*table).contains_key(key@) && toml_item(*value)
                == toml_entries(*table)[key@],
            None => !toml_entries(*table).contains_key(key@),
        },
{
    table.get(key)
}

/// Calls `Clone::clone` of `toml::Table`, which copies every entry.
#[verifier::external_body]
pub(crate) fn clone_table(table: &toml::Table) -> (r: toml::Table)
    ensures
        toml_entries(r) == toml_entries(*table),
{
    table.clone()
}

} // verus!
