//! The TOML reader behind the configuration document.
//!
//! Parsing is left to the `toml` crate. This module declares the crate's
//! types, names what a parsed table and a parsed value hold, and wraps the
//! few calls that the decoder makes. Nothing here is proved: each contract
//! restates what the crate's source shows.

use vstd::prelude::*;

verus! {

/// `toml::map::Map`, the table type of the `toml` crate, taken as opaque:
/// a table is `Map<String, Value>`, and what one holds is [`table_entries`].
#[verifier::external_type_specification]
#[verifier::external_body]
#[verifier::reject_recursive_types(K)]
#[verifier::reject_recursive_types(V)]
pub struct ExMap<K, V>(toml::map::Map<K, V>);

/// `toml::Value`, a parsed value of any kind, taken as opaque: what one
/// holds is [`value_node`].
#[verifier::external_type_specification]
#[verifier::external_body]
pub struct ExValue(toml::Value);

/// What a TOML value holds, as far as the decoder looks: the payload of a
/// string, an integer or a table; every other kind of value is `Other`.
pub enum Node {
    Text(Seq<char>),
    Integer(i64),
    Table(Map<Seq<char>, Node>),
    Other,
}

/// The entries that a `toml::Table` holds, by key. The accessors below say
/// of it what `Map::get` and `Value::as_table` hand out.
pub uninterp spec fn table_entries(table: &toml::Table) -> Map<Seq<char>, Node>;

/// What a `toml::Value` holds. The accessors below say of it what
/// `Value::as_str`, `Value::as_integer` and `Value::as_table` hand out.
pub uninterp spec fn value_node(value: &toml::Value) -> Node;

/// What `toml::from_slice` makes of `bytes`: the entries of the top-level
/// table where they are a TOML document, nothing where they are not.
pub uninterp spec fn document_entries(bytes: Seq<u8>) -> Option<Map<Seq<char>, Node>>;

/// `toml::from_slice`, read as a whole document into a table: it succeeds
/// exactly on the byte strings that are TOML documents, and the table it
/// returns holds the document's entries. What the parser has to say about
/// a rejected document is dropped.
#[verifier::external_body]
pub(crate) fn parse_document(bytes: &[u8]) -> (parsed: Option<toml::Table>)
    ensures
        parsed is Some <==> document_entries(bytes@) is Some,
        parsed matches Some(table) ==> document_entries(bytes@) == Some(table_entries(&table)),
{
    toml::from_slice::<toml::Table>(bytes).ok()
}

/// `Map::get` on a table: the value stored under `key`, if there is one.
#[verifier::external_body]
pub(crate) fn table_get<'a>(table: &'a toml::Table, key: &str) -> (found: Option<&'a toml::Value>)
    ensures
        found is Some <==> table_entries(table).contains_key(key@),
        found matches Some(value) ==> table_entries(table)[key@] == value_node(value),
{
    table.get(key)
}

/// `Value::as_str`: the text of a string value, nothing for any other kind.
#[verifier::external_body]
pub(crate) fn value_as_str<'a>(value: &'a toml::Value) -> (text: Option<&'a str>)
    ensures
        text is Some <==> value_node(value) is Text,
        text matches Some(s) ==> value_node(value) == Node::Text(s@),
{
    value.as_str()
}

/// `Value::as_integer`: the number of an integer value, nothing for any other kind.
#[verifier::external_body]
pub(crate) fn value_as_integer(value: &toml::Value) -> (number: Option<i64>)
    ensures
        number is Some <==> value_node(value) is Integer,
        number matches Some(n) ==> value_node(value) == Node::Integer(n),
{
    value.as_integer()
}

/// `Value::as_table`: the table of a table value, nothing for any other kind.
#[verifier::external_body]
pub(crate) fn value_as_table<'a>(value: &'a toml::Value) -> (table: Option<&'a toml::Table>)
    ensures
        table is Some <==> value_node(value) is Table,
        table matches Some(t) ==> value_node(value) == Node::Table(table_entries(t)),
{
    value.as_table()
}

} // verus!
