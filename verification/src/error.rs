//! The kinds of failure that loading transactions can end in.

use vstd::prelude::*;

verus! {

/// Why a text, a record or a part of a record could not be loaded.
#[derive(Clone, Copy, Debug, PartialEq, Eq, Structural)]
pub enum LoadError {
    /// A text is not syntactically valid structured data.
    Parse,
    /// An expected field is absent, or does not hold the list or the object
    /// that it should.
    Schema,
    /// A value that is present does not decode: a number that is out of
    /// range, a string that is not the text of what it should hold, or a
    /// value that is no number or no string where one is to be decoded.
    Encoding,
}

} // verus!
