//! Views of sequences and of results, shared by the contracts of the decoders.

use vstd::prelude::*;
use crate::error::LoadError;

verus! {

/// The views of the items of a sequence, one for one.
pub open spec fn views<T: View>(items: Seq<T>) -> Seq<T::V> {
    Seq::new(items.len(), |i: int| items[i]@)
}

/// A result with its value, if it has one, taken by its view.
pub open spec fn viewed<T: View>(r: Result<T, LoadError>) -> Result<T::V, LoadError> {
    match r {
        Ok(value) => Ok(value@),
        Err(e) => Err(e),
    }
}

/// A result with its values, if it has some, each taken by its view.
pub open spec fn viewed_each<T: View, C: View<V = Seq<T>>>(r: Result<C, LoadError>) -> Result<
    Seq<T::V>,
    LoadError,
> {
    match r {
        Ok(values) => Ok(views(values@)),
        Err(e) => Err(e),
    }
}

/// Appending sequences appends their views.
pub proof fn views_add<T: View>(first: Seq<T>, second: Seq<T>)
    ensures
        views(first + second) == views(first) + views(second),
{
    assert(views(first + second) =~= views(first) + views(second));
}

} // verus!
