//! Reading records from JSON text.
//!
//! The parsing is the work of `serde_json`. What it makes of a text is named
//! here by [`text_tree`], and what a parsed value holds by [`value_tree`];
//! the copying of a parsed value into a [`Record`] is verified against the
//! second.

use vstd::prelude::*;
use crate::error::LoadError;
use crate::outcome::viewed;
use crate::record::{Record, Tree};

verus! {

/// A parsed JSON value of `serde_json`. Nothing of it is seen here but
/// through [`unfold`].
#[verifier::external_type_specification]
#[verifier::external_body]
pub struct ExValue(serde_json::Value);

/// The error of `serde_json`. It is told apart from success, and no more.
#[verifier::external_type_specification]
#[verifier::external_body]
pub struct ExJsonError(serde_json::Error);

/// The tree that a parsed JSON value holds: its leaves as they are, a number
/// by what `Number::as_u64` makes of it, the items of an array in their
/// order, and the fields of an object in the order in which its map walks
/// them.
pub uninterp spec fn value_tree(v: serde_json::Value) -> Tree;

/// The tree that a text denotes as JSON, where it is valid JSON.
pub uninterp spec fn text_tree(text: Seq<char>) -> Option<Tree>;

/// One level of a parsed JSON value: its kind, its own content, and its
/// children still unread.
enum Level<'a> {
    Null,
    Bool(bool),
    Number(Option<u64>),
    Text(&'a String),
    List(&'a Vec<serde_json::Value>),
    Object(Vec<(&'a String, &'a serde_json::Value)>),
}

/// The tree that one level stands for, each child taken by its own tree.
spec fn level_tree(level: Level) -> Tree {
    match level {
        Level::Null => Tree::Null,
        Level::Bool(b) => Tree::Bool(b),
        Level::Number(Some(n)) => Tree::Integer(n),
        Level::Number(None) => Tree::OtherNumber,
        Level::Text(s) => Tree::Text(s@),
        Level::List(items) => Tree::List(items@.map_values(|v: serde_json::Value| value_tree(v))),
        Level::Object(fields) => Tree::Object(
            fields@.map_values(|f: (&String, &serde_json::Value)| (f.0@, value_tree(*f.1))),
        ),
    }
}

/// `serde_json::from_str` at the type `Value`. The call decides what
/// [`text_tree`] is: a text denotes the tree of the value that it parses to,
/// and denotes none where the call fails.
#[verifier::external_body]
fn parse_value(text: &str) -> (r: Result<serde_json::Value, serde_json::Error>)
    ensures
        match r {
            Ok(v) => text_tree(text@) == Some(value_tree(v)),
            Err(_) => text_tree(text@) is None,
        },
{
    serde_json::from_str(text)
}

/// Opens one level of a `serde_json::Value`: tells the six variants of the
/// enum apart and hands out what each holds. A number is read with
/// `Number::as_u64`, and the fields of an object are collected from
/// `Map::iter`. The contract says that this level, with each child taken by
/// its [`value_tree`], is the tree of the value; that is what fixes
/// [`value_tree`].
#[verifier::external_body]
fn unfold(v: &serde_json::Value) -> (level: Level<'_>)
    ensures
        level_tree(level) == value_tree(*v),
{
    match v {
        serde_json::Value::Null => Level::Null,
        serde_json::Value::Bool(b) => Level::Bool(*b),
        serde_json::Value::Number(n) => Level::Number(n.as_u64()),
        serde_json::Value::String(s) => Level::Text(s),
        serde_json::Value::Array(items) => Level::List(items),
        serde_json::Value::Object(fields) => Level::Object(fields.iter().collect()),
    }
}

/// Copies a parsed JSON value into a record that holds the same tree.
pub fn record_of(v: &serde_json::Value) -> (r: Record)
    ensures
        r@ == value_tree(*v),
    decreases value_tree(*v),
{
    match unfold(v) {
        Level::Null => Record::Null,
        Level::Bool(b) => Record::Bool(b),
        Level::Number(Some(n)) => Record::Integer(n),
        Level::Number(None) => Record::OtherNumber,
        Level::Text(s) => Record::Text(s.clone()),
        Level::List(items) => {
            let ghost trees = items@.map_values(|x: serde_json::Value| value_tree(x));
            let mut out: Vec<Record> = Vec::new();
            let mut i: usize = 0;
            while i < items.len()
                invariant
                    i <= items.len(),
                    out@.len() == i,
                    trees == items@.map_values(|x: serde_json::Value| value_tree(x)),
                    value_tree(*v) == Tree::List(trees),
                    forall|j: int| 0 <= j < i ==> (#[trigger] out@[j])@ == trees[j],
                decreases items.len() - i,
            {
                assert(trees[i as int] == value_tree(items@[i as int]));
                assert(decreases_to!(value_tree(*v) => value_tree(*v)->List_0));
                assert(decreases_to!(value_tree(*v)->List_0 => value_tree(*v)->List_0[i as int]));
                let child = record_of(&items[i]);
                out.push(child);
                i += 1;
            }
            let r = Record::List(out);
            assert(r@->List_0 =~= trees);
            r
        },
        Level::Object(fields) => {
            let ghost trees = fields@.map_values(
                |f: (&String, &serde_json::Value)| (f.0@, value_tree(*f.1)),
            );
            let mut out: Vec<(String, Record)> = Vec::new();
            let mut i: usize = 0;
            while i < fields.len()
                invariant
                    i <= fields.len(),
                    out@.len() == i,
                    trees == fields@.map_values(
                        |f: (&String, &serde_json::Value)| (f.0@, value_tree(*f.1)),
                    ),
                    value_tree(*v) == Tree::Object(trees),
                    forall|j: int|
                        0 <= j < i ==> (#[trigger] out@[j]).0@ == trees[j].0 && out@[j].1@
                            == trees[j].1,
                decreases fields.len() - i,
            {
                assert(trees[i as int] == (fields@[i as int].0@, value_tree(*fields@[i as int].1)));
                assert(decreases_to!(value_tree(*v) => value_tree(*v)->Object_0));
                assert(decreases_to!(
                    value_tree(*v)->Object_0 => value_tree(*v)->Object_0[i as int]
                ));
                assert(decreases_to!(
                    value_tree(*v)->Object_0[i as int] => value_tree(*v)->Object_0[i as int].1
                ));
                let child = record_of(fields[i].1);
                out.push((fields[i].0.clone(), child));
                i += 1;
            }
            let r = Record::Object(out);
            assert(r@->Object_0 =~= trees);
            r
        },
    }
}

/// What reading a text as a record gives: the tree that the text denotes as
/// JSON, or a parse error where it denotes none.
pub open spec fn spec_record(text: Seq<char>) -> Result<Tree, LoadError> {
    match text_tree(text) {
        Some(tree) => Ok(tree),
        None => Err(LoadError::Parse),
    }
}

/// Reads the text of a block file as one record.
pub fn read_block_data_json(json_string: &str) -> (r: Result<Record, LoadError>)
    ensures
        viewed(r) == spec_record(json_string@),
{
    record_from_parsed(parse_value(json_string))
}

/// The record of the value that parsing gave, or the parse error that stands
/// for every failure of the parser.
pub fn record_from_parsed(parsed: Result<serde_json::Value, serde_json::Error>) -> (r: Result<
    Record,
    LoadError,
>)
    ensures
        viewed(r) == match parsed {
            Ok(v) => Ok::<Tree, LoadError>(value_tree(v)),
            Err(_) => Err(LoadError::Parse),
        },
{
    match parsed {
        Ok(v) => Ok(record_of(&v)),
        Err(_) => Err(LoadError::Parse),
    }
}

} // verus!
