//! From the text of a settings file to its document, through the `toml`
//! crate.

use crate::document::Item;
use crate::error::ParseError;
use crate::nesting::{peak_nesting, shallow, MAX_NESTING};
use vstd::prelude::*;

verus! {

/// A value as the `toml` crate holds it.
#[verifier::external_type_specification]
#[verifier::external_body]
pub struct ExTomlValue(toml::Value);

/// The error of the `toml` crate's parser.
#[verifier::external_type_specification]
#[verifier::external_body]
pub struct ExTomlError(toml::de::Error);

/// What `toml::from_str` makes of a text as a `toml::Value`, or `None` where
/// it rejects the text.
pub uninterp spec fn toml_value(text: Seq<char>) -> Option<toml::Value>;

/// What a `toml::Value` holds, as an `Item`.
pub uninterp spec fn value_item(value: toml::Value) -> Item;

/// The document that a text holds, or `None` where it is not TOML.
pub open spec fn toml_document(text: Seq<char>) -> Option<Item> {
    match toml_value(text) {
        Some(value) => Some(value_item(value)),
        None => None,
    }
}

/// Calls `toml::from_str` for a `toml::Value`, which takes every well-formed
/// TOML text and rejects every other. The parser calls itself once for each
/// array or inline table that stands inside another, and the value it builds
/// is as deep as the dotted keys and nested values of the text; it sets no
/// limit to either. A text that nests deeper than `MAX_NESTING` is kept out,
/// so that the descent stays shallow.
#[verifier::external_body]
fn parse_toml(text: &str) -> (r: Result<toml::Value, toml::de::Error>)
    requires
        peak_nesting(text@) <= MAX_NESTING,
    ensures
        match r {
            Ok(value) => toml_value(text@) == Some(value),
            Err(_) => toml_value(text@) is None,
        },
{
    toml::from_str::<toml::Value>(text)
}

/// Tells the variants of a `toml::Value` apart and moves the contents of each
/// into the `Item` of the same kind, level by level. A table hands its
/// entries out in the order of its keys. It is for what the parser made of a
/// text that it was handed, which is no deeper than that text.
#[verifier::external_body]
fn item_of_value(value: &toml::Value) -> (item: Item)
    requires
        exists|text: Seq<char>|
            peak_nesting(text) <= MAX_NESTING && #[trigger] toml_value(text) == Some(*value),
    ensures
        item == value_item(*value),
{
    match value {
        toml::Value::String(s) => Item::Text(s.clone()),
        toml::Value::Integer(i) => Item::Integer(*i),
        toml::Value::Float(_) => Item::Real,
        toml::Value::Boolean(b) => Item::Boolean(*b),
        toml::Value::Datetime(_) => Item::Datetime,
        toml::Value::Array(a) => Item::Array(a.iter().map(item_of_value).collect()),
        toml::Value::Table(t) => Item::Table(
            t.iter().map(|(k, v)| (k.clone(), item_of_value(v))).collect(),
        ),
    }
}

/// Collects what a `toml::de::Error` displays: the reason and, where the
/// parser knows it, the line and column.
#[verifier::external_body]
fn error_message(error: &toml::de::Error) -> String {
    error.to_string()
}

/// The document of a text that is handed to the parser and taken by it.
pub open spec fn text_document(text: Seq<char>) -> Option<Item> {
    if peak_nesting(text) <= MAX_NESTING {
        toml_document(text)
    } else {
        None
    }
}

/// Reads a text as a TOML document.
///
/// A text that nests deeper than `MAX_NESTING` is not handed to the parser
/// and gives `TooDeep`; a text that the parser rejects gives `Syntax`.
pub fn parse_document(text: &str) -> (r: Result<Item, ParseError>)
    ensures
        match r {
            Ok(document) => text_document(text@) == Some(document),
            Err(ParseError::TooDeep) => peak_nesting(text@) > MAX_NESTING,
            Err(ParseError::Syntax { .. }) => peak_nesting(text@) <= MAX_NESTING && toml_document(
                text@,
            ) is None,
            Err(_) => false,
        },
{
    if !shallow(text) {
        return Err(ParseError::TooDeep);
    }
    match parse_toml(text) {
        Ok(value) => Ok(item_of_value(&value)),
        Err(error) => Err(ParseError::Syntax { message: error_message(&error) }),
    }
}

} // verus!
