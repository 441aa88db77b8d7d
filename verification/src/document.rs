//! The boundary to the `toml` crate: TOML tables, and the text they are
//! written as and read from.
//!
//! The functions of this file call `toml` and are not proved. Their contracts
//! state what the rest of the library takes for granted about `toml`;
//! everything else is verified against these statements.

use vstd::prelude::*;

verus! {

/// `toml::map::Map`, of which `toml::Table` is the instance with `String`
/// keys and `toml::Value` values. Opaque here: its entries are spoken of
/// through [`table_entries`].
#[verifier::external_type_specification]
#[verifier::external_body]
#[verifier::reject_recursive_types(K)]
#[verifier::reject_recursive_types(V)]
pub struct ExTomlMap<K, V>(toml::map::Map<K, V>);

/// `toml::Value`, one value of a TOML document. Opaque here.
#[verifier::external_type_specification]
#[verifier::external_body]
pub struct ExTomlValue(toml::Value);

/// `toml::de::Error`, the reason why a text was not read. Opaque here.
#[verifier::external_type_specification]
#[verifier::external_body]
pub struct ExTomlDeError(toml::de::Error);

/// `toml::ser::Error`, the reason why a value was not written. Opaque here.
#[verifier::external_type_specification]
#[verifier::external_body]
pub struct ExTomlSerError(toml::ser::Error);

/// What a table holds at its top level: under each key that it has, the text
/// of the value where the value is a TOML string, and `None` where it is of
/// another TOML type (a number, a boolean, a date, an array, a table).
pub uninterp spec fn table_entries(table: toml::map::Map<String, toml::Value>) -> Map<
    Seq<char>,
    Option<Seq<char>>,
>;

/// The entries of the table that `toml::from_str` reads from `text`, or `None`
/// where it reads none.
pub uninterp spec fn toml_document(text: Seq<char>) -> Option<Map<Seq<char>, Option<Seq<char>>>>;

/// The text that `toml::to_string` writes for a table that holds `entries`,
/// all of them strings, or `None` where it writes none.
pub uninterp spec fn toml_text(entries: Map<Seq<char>, Option<Seq<char>>>) -> Option<Seq<char>>;

/// Whether every value of `entries` is a TOML string.
pub open spec fn all_text(entries: Map<Seq<char>, Option<Seq<char>>>) -> bool {
    forall|key: Seq<char>| #[trigger] entries.dom().contains(key) ==> entries[key] is Some
}

/// What a table holds under one key.
#[derive(Debug, Clone, PartialEq, Eq)]
pub enum Field {
    /// The table has no such key.
    Missing,
    /// The value is a TOML string, with this text.
    Text(String),
    /// The value is of another TOML type.
    Other,
}

impl Field {
    /// Whether this is what `entries` holds under `key`.
    pub open spec fn is_entry(self, entries: Map<Seq<char>, Option<Seq<char>>>, key: Seq<char>) -> bool {
        match self {
            Field::Missing => !entries.dom().contains(key),
            Field::Text(text) => entries.dom().contains(key) && entries[key] == Some(text@),
            Field::Other => entries.dom().contains(key) && entries[key] is None,
        }
    }
}

/// `toml::Table::new`. Taken for granted: the new table has no entries.
#[verifier::external_body]
pub(crate) fn table_new() -> (table: toml::Table)
    ensures
        table_entries(table) == (Map::<Seq<char>, Option<Seq<char>>>::empty()),
{
    toml::Table::new()
}

/// `toml::Table::insert` with a `toml::Value::String`. Taken for granted:
/// afterwards the table holds `text` under `key`, in place of what it held
/// there, and its other entries as before.
#[verifier::external_body]
pub(crate) fn table_insert_text(table: &mut toml::Table, key: String, text: String)
    ensures
        table_entries(*final(table)) == table_entries(*old(table)).insert(key@, Some(text@)),
{
    table.insert(key, toml::Value::String(text));
}

/// `toml::Table::get`. Taken for granted: it finds the value under `key`
/// where the table has that key, and nothing where it has not. The value
/// found is told apart by its variant, and the text of a string is copied out.
#[verifier::external_body]
pub(crate) fn table_field(table: &toml::Table, key: &str) -> (field: Field)
    ensures
        field.is_entry(table_entries(*table), key@),
{
    match table.get(key) {
        None => Field::Missing,
        Some(toml::Value::String(text)) => Field::Text(text.clone()),
        Some(_) => Field::Other,
    }
}

/// `toml::from_str` at `toml::Table`: reads `text` as a TOML document. Taken
/// for granted: the outcome depends on `text` alone. Which texts are
/// documents, and with which entries, is left to `toml`.
#[verifier::external_body]
pub(crate) fn read_table(text: &str) -> (read: Result<toml::Table, toml::de::Error>)
    ensures
        match read {
            Ok(table) => toml_document(text@) == Some(table_entries(table)),
            Err(_) => toml_document(text@) is None,
        },
{
    toml::from_str::<toml::Table>(text)
}

/// `toml::to_string` at `toml::Table`: writes the table as a TOML document.
/// Taken for granted: for a table of strings the outcome depends on its
/// entries alone (a table keeps them sorted by key, so the order in which
/// they were inserted leaves no trace). How they are written, and whether
/// writing can fail, is left to `toml`.
#[verifier::external_body]
pub(crate) fn write_table(table: &toml::Table) -> (written: Result<String, toml::ser::Error>)
    requires
        all_text(table_entries(*table)),
    ensures
        match written {
            Ok(text) => toml_text(table_entries(*table)) == Some(text@),
            Err(_) => toml_text(table_entries(*table)) is None,
        },
{
    toml::to_string(table)
}

} // verus!
