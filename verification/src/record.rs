//! Structured records: trees of typed leaf values, lists and keyed fields.
//!
//! A [`Record`] is what the decoders read. Its mathematical content is a
//! [`Tree`], and every contract of the decoders is stated over trees.

use vstd::prelude::*;
use crate::outcome::views;

verus! {

/// What a record holds, as a mathematical tree.
pub enum Tree {
    /// The absent value.
    Null,
    /// A truth value.
    Bool(bool),
    /// A number that is a non-negative integer below 2^64.
    Integer(u64),
    /// Any other number: negative, fractional or too large.
    OtherNumber,
    /// A string.
    Text(Seq<char>),
    /// An ordered list of trees.
    List(Seq<Tree>),
    /// Named fields, in the order in which they are held.
    Object(Seq<(Seq<char>, Tree)>),
}

/// The value of the first of `fields` that is named `key`.
pub open spec fn first_named(fields: Seq<(Seq<char>, Tree)>, key: Seq<char>) -> Option<Tree>
    decreases fields.len(),
{
    if fields.len() == 0 {
        None
    } else if fields[0].0 == key {
        Some(fields[0].1)
    } else {
        first_named(fields.drop_first(), key)
    }
}

/// What is found under a name is the value of a field of that name, and no
/// field before it has the name; nothing is found exactly where no field has
/// the name.
pub proof fn first_named_is_the_first_of_its_name(
    fields: Seq<(Seq<char>, Tree)>,
    key: Seq<char>,
)
    ensures
        match first_named(fields, key) {
            Some(value) => exists|i: int|
                0 <= i < fields.len() && #[trigger] fields[i] == (key, value) && forall|j: int|
                    0 <= j < i ==> (#[trigger] fields[j]).0 != key,
            None => forall|i: int| 0 <= i < fields.len() ==> (#[trigger] fields[i]).0 != key,
        },
    decreases fields.len(),
{
    if fields.len() > 0 && fields[0].0 != key {
        let rest = fields.drop_first();
        first_named_is_the_first_of_its_name(rest, key);
        match first_named(rest, key) {
            Some(value) => {
                let i = choose|i: int|
                    0 <= i < rest.len() && #[trigger] rest[i] == (key, value) && forall|j: int|
                        0 <= j < i ==> (#[trigger] rest[j]).0 != key;
                assert(fields[i + 1] == (key, value));
                assert forall|j: int| 0 <= j < i + 1 implies (#[trigger] fields[j]).0 != key by {
                    if j > 0 {
                        assert(rest[j - 1] == fields[j]);
                    }
                }
            },
            None => {
                assert forall|i: int| 0 <= i < fields.len() implies (#[trigger] fields[i]).0
                    != key by {
                    if i > 0 {
                        assert(rest[i - 1] == fields[i]);
                    }
                }
            },
        }
    } else if fields.len() > 0 {
        assert(fields[0] == (key, fields[0].1));
    }
}

impl Tree {
    /// The field named `key`, where the tree is an object that has one.
    pub open spec fn field(self, key: Seq<char>) -> Option<Tree> {
        match self {
            Tree::Object(fields) => first_named(fields, key),
            _ => None,
        }
    }

    /// The items, where the tree is a list.
    pub open spec fn items(self) -> Option<Seq<Tree>> {
        match self {
            Tree::List(items) => Some(items),
            _ => None,
        }
    }

    /// The characters, where the tree is a string.
    pub open spec fn text(self) -> Option<Seq<char>> {
        match self {
            Tree::Text(text) => Some(text),
            _ => None,
        }
    }
}

/// A structured record as the decoders read it.
#[derive(Debug, PartialEq, Eq)]
pub enum Record {
    /// The absent value.
    Null,
    /// A truth value.
    Bool(bool),
    /// A number that is a non-negative integer below 2^64.
    Integer(u64),
    /// Any other number: negative, fractional or too large.
    OtherNumber,
    /// A string.
    Text(String),
    /// An ordered list of records.
    List(Vec<Record>),
    /// Named fields, in the order in which they are held.
    Object(Vec<(String, Record)>),
}

impl Record {
    /// The tree that the record holds.
    pub open spec fn tree(self) -> Tree
        decreases self,
    {
        match self {
            Record::Null => Tree::Null,
            Record::Bool(b) => Tree::Bool(b),
            Record::Integer(n) => Tree::Integer(n),
            Record::OtherNumber => Tree::OtherNumber,
            Record::Text(s) => Tree::Text(s@),
            Record::List(items) => Tree::List(
                Seq::new(
                    items@.len(),
                    |i: int|
                        if 0 <= i < items@.len() {
                            items@[i].tree()
                        } else {
                            Tree::Null
                        },
                ),
            ),
            Record::Object(fields) => Tree::Object(
                Seq::new(
                    fields@.len(),
                    |i: int|
                        if 0 <= i < fields@.len() {
                            (fields@[i].0@, fields@[i].1.tree())
                        } else {
                            (Seq::empty(), Tree::Null)
                        },
                ),
            ),
        }
    }
}

impl View for Record {
    type V = Tree;

    open spec fn view(&self) -> Tree {
        self.tree()
    }
}

/// The names and trees of a sequence of fields, one for one.
pub open spec fn named_trees(fields: Seq<(String, Record)>) -> Seq<(Seq<char>, Tree)> {
    Seq::new(fields.len(), |i: int| (fields[i].0@, fields[i].1@))
}

/// A list holds the trees of its items, one for one.
pub proof fn list_holds_its_items(items: Vec<Record>)
    ensures
        Record::List(items)@ == Tree::List(views(items@)),
{
    assert(Record::List(items)@->List_0 =~= views(items@));
}

/// An object holds the names and trees of its fields, one for one.
pub proof fn object_holds_its_fields(fields: Vec<(String, Record)>)
    ensures
        Record::Object(fields)@ == Tree::Object(named_trees(fields@)),
{
    assert(Record::Object(fields)@->Object_0 =~= named_trees(fields@));
}

impl Clone for Record {
    fn clone(&self) -> (copy: Record)
        ensures
            copy@ == self@,
        decreases self,
    {
        match self {
            Record::Null => Record::Null,
            Record::Bool(b) => Record::Bool(*b),
            Record::Integer(n) => Record::Integer(*n),
            Record::OtherNumber => Record::OtherNumber,
            Record::Text(text) => Record::Text(text.clone()),
            Record::List(items) => {
                let mut copies: Vec<Record> = Vec::new();
                let mut i: usize = 0;
                while i < items.len()
                    invariant
                        i <= items.len(),
                        *self == Record::List(*items),
                        copies@.len() == i,
                        forall|j: int| 0 <= j < i ==> (#[trigger] copies@[j])@ == items@[j]@,
                    decreases items.len() - i,
                {
                    assert(decreases_to!(self => self->List_0));
                    assert(decreases_to!(self->List_0 => self->List_0[i as int]));
                    copies.push(items[i].clone());
                    i += 1;
                }
                let copy = Record::List(copies);
                assert(copy@->List_0 =~= self@->List_0);
                copy
            },
            Record::Object(fields) => {
                let mut copies: Vec<(String, Record)> = Vec::new();
                let mut i: usize = 0;
                while i < fields.len()
                    invariant
                        i <= fields.len(),
                        *self == Record::Object(*fields),
                        copies@.len() == i,
                        forall|j: int|
                            0 <= j < i ==> (#[trigger] copies@[j]).0@ == fields@[j].0@
                                && copies@[j].1@ == fields@[j].1@,
                    decreases fields.len() - i,
                {
                    assert(decreases_to!(self => self->Object_0));
                    assert(decreases_to!(self->Object_0 => self->Object_0[i as int]));
                    assert(decreases_to!(self->Object_0[i as int] => self->Object_0[i as int].1));
                    copies.push((fields[i].0.clone(), fields[i].1.clone()));
                    i += 1;
                }
                let copy = Record::Object(copies);
                assert(copy@->Object_0 =~= self@->Object_0);
                copy
            },
        }
    }
}

impl Record {
    /// The field named `key`, where the record is an object that has one: the
    /// first such field in the order in which the object holds them.
    pub fn get(&self, key: &str) -> (found: Option<&Record>)
        ensures
            match found {
                Some(value) => self@.field(key@) == Some(value@),
                None => self@.field(key@) is None,
            },
    {
        match self {
            Record::Object(fields) => {
                let wanted: String = key.to_owned();
                let ghost named = named_trees(fields@);
                let mut i: usize = 0;
                proof {
                    object_holds_its_fields(*fields);
                    assert(named.skip(0) =~= named);
                }
                while i < fields.len()
                    invariant
                        i <= fields.len(),
                        wanted@ == key@,
                        named == named_trees(fields@),
                        self@ == Tree::Object(named),
                        first_named(named, key@) == first_named(named.skip(i as int), key@),
                    decreases fields.len() - i,
                {
                    assert(named.skip(i as int)[0] == named[i as int]);
                    assert(named.skip(i as int).drop_first() =~= named.skip(i as int + 1));
                    if fields[i].0 == wanted {
                        return Some(&fields[i].1);
                    }
                    i += 1;
                }
                None
            },
            _ => None,
        }
    }

    /// The items, where the record is a list.
    pub fn as_list(&self) -> (found: Option<&Vec<Record>>)
        ensures
            match found {
                Some(items) => self@.items() == Some(views(items@)),
                None => self@.items() is None,
            },
    {
        match self {
            Record::List(items) => {
                proof {
                    list_holds_its_items(*items);
                }
                Some(items)
            },
            _ => None,
        }
    }

    /// The characters, where the record is a string.
    pub fn as_text(&self) -> (found: Option<&str>)
        ensures
            match found {
                Some(text) => self@.text() == Some(text@),
                None => self@.text() is None,
            },
    {
        match self {
            Record::Text(text) => Some(text.as_str()),
            _ => None,
        }
    }
}

} // verus!
