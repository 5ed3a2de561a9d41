//! The parsed configuration document: its mathematical model and the
//! trusted boundary to the `toml` crate that produces and reads it.

use vstd::prelude::*;

verus! {

/// Mathematical model of a parsed configuration value: a text, an integer,
/// a table from keys to values, or anything else the format can hold
/// (booleans, floats, dates, arrays), which the resolution never reads.
pub enum RawTree {
    Text(Seq<char>),
    Integer(i64),
    Table(Map<Seq<char>, RawTree>),
    Other,
}

/// The value stored under `key` when `tree` is a table that has the key.
pub open spec fn lookup(tree: RawTree, key: Seq<char>) -> Option<RawTree> {
    match tree {
        RawTree::Table(entries) => if entries.contains_key(key) {
            Some(entries[key])
        } else {
            None
        },
        _ => None,
    }
}

/// The text of `tree` when it is a text value.
pub open spec fn text_of(tree: RawTree) -> Option<Seq<char>> {
    match tree {
        RawTree::Text(text) => Some(text),
        _ => None,
    }
}

/// The number of `tree` when it is an integer value.
pub open spec fn integer_of(tree: RawTree) -> Option<i64> {
    match tree {
        RawTree::Integer(number) => Some(number),
        _ => None,
    }
}

/// Makes `toml::Value` known to the verifier, as a value it cannot look
/// into.
#[verifier::external_type_specification]
#[verifier::external_body]
pub struct ExValue(toml::Value);

/// What a `toml::Value` holds: a string as `Text`, an integer as `Integer`,
/// a table as `Table` with the tree of each value under its key, and every
/// other value as `Other`.
pub uninterp spec fn tree_of(value: toml::Value) -> RawTree;

/// What `toml::from_str::<toml::Value>` makes of a text: the document's
/// tree, or nothing where the text is not a well-formed document.
pub uninterp spec fn parsed_document(text: Seq<char>) -> Option<RawTree>;

/// Calls `toml::from_str::<toml::Value>`. Trusted: the outcome is a function
/// of the text alone, named `parsed_document`.
#[verifier::external_body]
pub(crate) fn parse_document(text: &str) -> (r: Option<toml::Value>)
    ensures
        match r {
            Some(document) => parsed_document(text@) == Some(tree_of(document)),
            None => parsed_document(text@) is None,
        },
{
    match toml::from_str::<toml::Value>(text) {
        Ok(document) => Some(document),
        Err(_) => None,
    }
}

/// Calls `toml::Value::get` with a string key. Trusted: it returns the value
/// stored under the key when the receiver is a table that has the key, and
/// nothing otherwise.
#[verifier::external_body]
pub(crate) fn entry<'a>(value: &'a toml::Value, key: &str) -> (r: Option<&'a toml::Value>)
    ensures
        match r {
            Some(child) => lookup(tree_of(*value), key@) == Some(tree_of(*child)),
            None => lookup(tree_of(*value), key@) is None,
        },
{
    value.get(key)
}

/// `toml::Value::as_str` returns the text of a string value and nothing for
/// any other value.
pub assume_specification<'a>[ toml::Value::as_str ](value: &'a toml::Value) -> (r: Option<&'a str>)
    ensures
        match r {
            Some(text) => text_of(tree_of(*value)) == Some(text@),
            None => text_of(tree_of(*value)) is None,
        },
;

/// `toml::Value::as_integer` returns the number of an integer value and
/// nothing for any other value.
pub assume_specification[ toml::Value::as_integer ](value: &toml::Value) -> (r: Option<i64>)
    ensures
        r == integer_of(tree_of(*value)),
;

/// The text stored directly under `key` of a table.
pub open spec fn text_at(tree: RawTree, key: Seq<char>) -> Option<Seq<char>> {
    match lookup(tree, key) {
        Some(child) => text_of(child),
        None => None,
    }
}

/// The integer stored directly under `key` of a table.
pub open spec fn integer_at(tree: RawTree, key: Seq<char>) -> Option<i64> {
    match lookup(tree, key) {
        Some(child) => integer_of(child),
        None => None,
    }
}

/// Reads the text stored under `key`, if the value there is a text.
pub fn read_text(table: &toml::Value, key: &str) -> (r: Option<String>)
    ensures
        match r {
            Some(text) => text_at(tree_of(*table), key@) == Some(text@),
            None => text_at(tree_of(*table), key@) is None,
        },
{
    match entry(table, key) {
        Some(child) => match child.as_str() {
            Some(text) => Some(text.to_owned()),
            None => None,
        },
        None => None,
    }
}

/// Reads the integer stored under `key`, if the value there is an integer.
pub fn read_integer(table: &toml::Value, key: &str) -> (r: Option<i64>)
    ensures
        r == integer_at(tree_of(*table), key@),
{
    match entry(table, key) {
        Some(child) => child.as_integer(),
        None => None,
    }
}

} // verus!
