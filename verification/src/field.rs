//! Reading the fields of a record.
//!
//! Two kinds of failure arise in reading. A field that is absent is a schema
//! error, and so is a field that should hold a list or an object and holds
//! something else. A field that should hold a number or a string, and is
//! present, is decoded from whatever it holds: what does not decode (a
//! number that is not an integer from 0 to 255, a string that is not the
//! text that is asked for, a value that is no number or no string at all) is
//! an encoding error.

use vstd::prelude::*;
use crate::error::LoadError;
use crate::outcome::{viewed, viewed_each};
use crate::record::{Record, Tree};

verus! {

/// What narrowing a value to an unsigned 8-bit integer gives: the number
/// where it is an integer from 0 to 255, an encoding error for every other
/// value.
pub open spec fn spec_narrow(tree: Tree) -> Result<u8, LoadError> {
    match tree {
        Tree::Integer(n) => if n <= 255 {
            Ok(n as u8)
        } else {
            Err(LoadError::Encoding)
        },
        _ => Err(LoadError::Encoding),
    }
}

/// What reading the field `key` as an unsigned 8-bit integer gives: a schema
/// error where the field is absent, else what narrowing its value gives.
pub open spec fn spec_u8_field(tree: Tree, key: Seq<char>) -> Result<u8, LoadError> {
    match tree.field(key) {
        Some(value) => spec_narrow(value),
        None => Err(LoadError::Schema),
    }
}

/// What reading the field `key` as a list gives: the items, or a schema
/// error where the field is absent or holds no list.
pub open spec fn spec_list_field(tree: Tree, key: Seq<char>) -> Result<Seq<Tree>, LoadError> {
    match tree.field(key) {
        Some(Tree::List(items)) => Ok(items),
        _ => Err(LoadError::Schema),
    }
}

/// What reading the field `key` as a string gives: a schema error where the
/// field is absent, the characters where it holds a string, an encoding
/// error where it holds anything else.
pub open spec fn spec_text_field(tree: Tree, key: Seq<char>) -> Result<Seq<char>, LoadError> {
    match tree.field(key) {
        Some(Tree::Text(text)) => Ok(text),
        Some(_) => Err(LoadError::Encoding),
        None => Err(LoadError::Schema),
    }
}

/// What reading the field `key` as an object gives: the object, or a schema
/// error where the field is absent or holds no object.
pub open spec fn spec_object_field(tree: Tree, key: Seq<char>) -> Result<Tree, LoadError> {
    match tree.field(key) {
        Some(value) => if value is Object {
            Ok(value)
        } else {
            Err(LoadError::Schema)
        },
        None => Err(LoadError::Schema),
    }
}

/// Narrows a value to an unsigned 8-bit integer.
pub fn narrow(value: &Record) -> (r: Result<u8, LoadError>)
    ensures
        r == spec_narrow(value@),
{
    match value {
        Record::Integer(n) => {
            if *n <= 255 {
                Ok(*n as u8)
            } else {
                Err(LoadError::Encoding)
            }
        },
        _ => Err(LoadError::Encoding),
    }
}

/// Reads the field `key` of a record as an unsigned 8-bit integer.
pub fn u8_field(record: &Record, key: &str) -> (r: Result<u8, LoadError>)
    ensures
        r == spec_u8_field(record@, key@),
{
    match record.get(key) {
        Some(value) => narrow(value),
        None => Err(LoadError::Schema),
    }
}

/// Reads the field `key` of a record as a list.
pub fn list_field<'a>(record: &'a Record, key: &str) -> (r: Result<&'a Vec<Record>, LoadError>)
    ensures
        viewed_each(r) == spec_list_field(record@, key@),
{
    match record.get(key) {
        Some(value) => match value.as_list() {
            Some(items) => Ok(items),
            None => Err(LoadError::Schema),
        },
        None => Err(LoadError::Schema),
    }
}

/// Reads the field `key` of a record as a string.
pub fn text_field<'a>(record: &'a Record, key: &str) -> (r: Result<&'a str, LoadError>)
    ensures
        viewed(r) == spec_text_field(record@, key@),
{
    match record.get(key) {
        Some(value) => match value.as_text() {
            Some(text) => Ok(text),
            None => Err(LoadError::Encoding),
        },
        None => Err(LoadError::Schema),
    }
}

/// Reads the field `key` of a record as an object.
pub fn object_field<'a>(record: &'a Record, key: &str) -> (r: Result<&'a Record, LoadError>)
    ensures
        viewed(r) == spec_object_field(record@, key@),
{
    match record.get(key) {
        Some(value) => match value {
            Record::Object(_) => Ok(value),
            _ => Err(LoadError::Schema),
        },
        None => Err(LoadError::Schema),
    }
}

} // verus!
