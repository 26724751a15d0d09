//! What the crate takes on trust from the `toml` crate: parsing a document
//! and looking into its values.
//!
//! Nothing in this file is proved. What a `toml::Value` holds is given a
//! name, [`toml_of`], and each function below is believed to return what
//! that name stands for. Everything built on top is proved from that.

use vstd::prelude::*;

verus! {

/// `toml::Value`: a parsed TOML value.
#[verifier::external_type_specification]
#[verifier::external_body]
pub struct ExTomlValue(toml::Value);

/// `toml::de::Error`: why a text could not be parsed.
#[verifier::external_type_specification]
#[verifier::external_body]
pub struct ExTomlError(toml::de::Error);

/// A TOML value, as far as this crate reads it.
pub enum Toml {
    Text(Seq<char>),
    Integer(i64),
    /// The entries of a table, in the order in which the table is walked.
    /// No key occurs twice.
    Table(Seq<(Seq<char>, Toml)>),
    /// A truth value, a fraction, a date or an array.
    Other,
}

/// What a `toml::Value` holds.
pub uninterp spec fn toml_of(value: toml::Value) -> Toml;

/// The document that `toml::from_str` reads from `text` as a table, none
/// where it reports an error.
pub uninterp spec fn parsed_document(text: Seq<char>) -> Option<Toml>;

/// The value that stands under `key` among `entries`.
pub open spec fn found_under(entries: Seq<(Seq<char>, Toml)>, key: Seq<char>) -> Option<Toml>
    decreases entries.len(),
{
    if entries.len() == 0 {
        None
    } else if entries.last().0 == key {
        Some(entries.last().1)
    } else {
        found_under(entries.drop_last(), key)
    }
}

/// The entry of a table under `key`, none where the value is no table or
/// has no such entry.
pub open spec fn entry(value: Toml, key: Seq<char>) -> Option<Toml> {
    match value {
        Toml::Table(entries) => found_under(entries, key),
        _ => None,
    }
}

/// The entries of a table, none for any other value.
pub open spec fn entries_of(value: Toml) -> Seq<(Seq<char>, Toml)> {
    match value {
        Toml::Table(entries) => entries,
        _ => Seq::empty(),
    }
}

/// Calls `toml::from_str` to read `text` as a document, that is, as a
/// table. The claim: the call returns a value that holds the document
/// named [`parsed_document`], and an error exactly where that is none.
#[verifier::external_body]
pub(crate) fn parse_document(text: &str) -> (document: Result<toml::Value, toml::de::Error>)
    ensures
        match document {
            Ok(value) => parsed_document(text@) == Some(toml_of(value)),
            Err(_) => parsed_document(text@) is None,
        },
{
    toml::from_str::<toml::Table>(text).map(toml::Value::Table)
}

/// Calls `Value::get` with a string key. The claim: the call returns the
/// entry of that name where the value is a table that has one.
#[verifier::external_body]
pub(crate) fn get<'a>(value: &'a toml::Value, key: &str) -> (found: Option<&'a toml::Value>)
    ensures
        match found {
            Some(v) => entry(toml_of(*value), key@) == Some(toml_of(*v)),
            None => entry(toml_of(*value), key@) is None,
        },
{
    value.get(key)
}

/// Calls `Value::as_table` and `Map::iter`, and copies the keys. The
/// claim: the call returns the entries of a table in the order in which
/// the table is walked, and nothing for any other value.
#[verifier::external_body]
pub(crate) fn entries<'a>(value: &'a toml::Value) -> (list: Vec<(String, &'a toml::Value)>)
    ensures
        list@.len() == entries_of(toml_of(*value)).len(),
        forall|i: int|
            0 <= i < list@.len() ==> (#[trigger] list@[i]).0@ == entries_of(toml_of(*value))[i].0
                && toml_of(*list@[i].1) == entries_of(toml_of(*value))[i].1,
{
    value.as_table().into_iter().flat_map(|table| table.iter()).map(|(k, v)| (k.clone(), v)).collect()
}

/// `Value::as_str` returns the text of a value that is a string.
pub assume_specification<'a>[ toml::Value::as_str ](value: &'a toml::Value) -> (found: Option<
    &'a str,
>)
    ensures
        match found {
            Some(s) => toml_of(*value) == Toml::Text(s@),
            None => !(toml_of(*value) is Text),
        },
;

/// `Value::as_integer` returns the number of a value that is an integer.
pub assume_specification[ toml::Value::as_integer ](value: &toml::Value) -> (number: Option<i64>)
    ensures
        match number {
            Some(n) => toml_of(*value) == Toml::Integer(n),
            None => !(toml_of(*value) is Integer),
        },
;

/// `Value::is_table` tells whether a value is a table.
pub assume_specification[ toml::Value::is_table ](value: &toml::Value) -> (yes: bool)
    ensures
        yes == (toml_of(*value) is Table),
;

} // verus!
