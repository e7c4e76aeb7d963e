//! Structured documents, read by the `toml` crate.
//!
//! A parsed document is a `toml::Value`, which stays opaque here. What one
//! holds is named by the spec functions below; the crate's calls stand behind
//! the functions at the end of this module, whose contracts are taken on trust.

use vstd::prelude::*;
use crate::name_map::paired;

verus! {

/// `toml::Value`, a parsed value of any kind, carried through unopened.
#[verifier::external_type_specification]
#[verifier::external_body]
pub struct ExValue(toml::Value);

/// `toml::map::Map`, the table of a table value, carried through unopened.
#[verifier::external_type_specification]
#[verifier::external_body]
#[verifier::reject_recursive_types(K)]
#[verifier::reject_recursive_types(V)]
pub struct ExTable<K, V>(toml::map::Map<K, V>);

/// `toml::de::Error`, the error of a text that is no valid document; only
/// its presence is looked at.
#[verifier::external_type_specification]
#[verifier::external_body]
pub struct ExDocumentError(toml::de::Error);

/// The document that `toml` reads from a text, if the text is valid.
pub uninterp spec fn document_of(text: Seq<char>) -> Option<toml::Value>;

/// The table that a table value holds; nothing for a value that is no table.
pub uninterp spec fn table_of(value: toml::Value) -> Option<toml::map::Map<String, toml::Value>>;

/// What a table holds: its values, by key.
pub uninterp spec fn entries_of(table: toml::map::Map<String, toml::Value>) -> Map<
    Seq<char>,
    toml::Value,
>;

/// The characters of a string value; nothing for a value that is no string.
pub uninterp spec fn text_of(value: toml::Value) -> Option<Seq<char>>;

/// The items of an array, in order; nothing for a value that is no array.
pub uninterp spec fn list_of(value: toml::Value) -> Option<Seq<toml::Value>>;

/// The value under a key of a table; nothing where the value is no table or
/// the table lacks the key.
pub open spec fn member_of(value: toml::Value, key: Seq<char>) -> Option<toml::Value> {
    match table_of(value) {
        Some(table) => if entries_of(table).contains_key(key) {
            Some(entries_of(table)[key])
        } else {
            None
        },
        None => None,
    }
}

/// The keys of the entries handed out by a table, in the order handed out.
pub open spec fn entry_keys(entries: Seq<(&String, &toml::Value)>) -> Seq<Seq<char>> {
    entries.map_values(|e: (&String, &toml::Value)| e.0@)
}

/// The values of the entries handed out by a table, in the order handed out.
pub open spec fn entry_values(entries: Seq<(&String, &toml::Value)>) -> Seq<toml::Value> {
    entries.map_values(|e: (&String, &toml::Value)| *e.1)
}

/// Calls `toml::Value`'s `FromStr` implementation, which reads a whole
/// document. Trusted: the outcome depends on the text alone, so it is the
/// named document or, for an invalid text, an error.
#[verifier::external_body]
pub(crate) fn parse_document(text: &str) -> (r: Result<toml::Value, toml::de::Error>)
    ensures
        match r {
            Ok(value) => document_of(text@) == Some(value),
            Err(_) => document_of(text@) is None,
        },
{
    text.parse::<toml::Value>()
}

/// Calls `toml::Value::get` with a string index. Trusted: it returns the
/// value under that key when `value` is a table holding the key, and nothing
/// in every other case.
#[verifier::external_body]
pub(crate) fn member<'a>(value: &'a toml::Value, key: &str) -> (r: Option<&'a toml::Value>)
    ensures
        r == match member_of(*value, key@) {
            Some(found) => Some(&found),
            None => None,
        },
{
    value.get(key)
}

/// Calls `toml::Value::as_table`. Trusted: it returns the table of a table
/// value and nothing for any other value.
#[verifier::external_body]
pub(crate) fn value_table<'a>(value: &'a toml::Value) -> (r: Option<
    &'a toml::map::Map<String, toml::Value>,
>)
    ensures
        match r {
            Some(table) => table_of(*value) == Some(*table),
            None => table_of(*value) is None,
        },
{
    value.as_table()
}

/// Collects what `toml::map::Map::iter` yields. Trusted: a table hands out
/// each of its entries once, so the keys are distinct and the entries are
/// exactly the table's.
#[verifier::external_body]
pub(crate) fn table_entries<'a>(table: &'a toml::map::Map<String, toml::Value>) -> (entries: Vec<
    (&'a String, &'a toml::Value),
>)
    ensures
        entry_keys(entries@).no_duplicates(),
        entries_of(*table) == paired(entry_keys(entries@), entry_values(entries@)),
{
    table.iter().collect()
}

/// Calls `toml::Value::as_str`. Trusted: it returns the string of a string
/// value and nothing for any other value.
#[verifier::external_body]
pub(crate) fn value_text<'a>(value: &'a toml::Value) -> (r: Option<&'a str>)
    ensures
        match r {
            Some(text) => text_of(*value) == Some(text@),
            None => text_of(*value) is None,
        },
{
    value.as_str()
}

/// Calls `toml::Value::as_array`. Trusted: it returns the items of an array
/// and nothing for any other value.
#[verifier::external_body]
pub(crate) fn value_list<'a>(value: &'a toml::Value) -> (r: Option<&'a Vec<toml::Value>>)
    ensures
        match r {
            Some(items) => list_of(*value) == Some(items@),
            None => list_of(*value) is None,
        },
{
    value.as_array()
}

} // verus!
