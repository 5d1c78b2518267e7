//! Fallible conversions into full arrays: from a container, and from an iterator.

use vstd::prelude::*;
use vstd::std_specs::iter::IteratorSpec;

use crate::array::Array;
use crate::error::IncompleteArrayError;
use crate::stackvec::StackVec;

verus! {

/// A conversion that consumes `self` and may fail.
pub trait TryInto<Dst>: Sized {
    /// The error returned when the conversion fails.
    type Error;

    /// Whether `r` is what converting `self` gives.
    spec fn converts_to(&self, r: Result<Dst, Self::Error>) -> bool;

    /// Attempts the conversion.
    fn try_into(self) -> (r: Result<Dst, Self::Error>)
        ensures
            self.converts_to(r),
    ;
}

impl<A: Array> TryInto<A> for StackVec<A> {
    type Error = (IncompleteArrayError, StackVec<A>);

    open spec fn converts_to(&self, r: Result<A, (IncompleteArrayError, StackVec<A>)>) -> bool {
        &&& r is Ok <==> self@.len() == A::spec_capacity()
        &&& r matches Ok(array) ==> array.items() == self@
        &&& r matches Err((_, back)) ==> back@ == self@
    }

    /// Turns a full container into its array, as `try_into_array` does; a container that
    /// is not full comes back, untouched, beside the error.
    fn try_into(self) -> (r: Result<A, (IncompleteArrayError, StackVec<A>)>) {
        self.try_into_array()
    }
}

/// A collection that can be built from the values of an iterator, or fail to be.
pub trait TryFromIterator<Item>: Sized {
    /// The error returned when the collection cannot be built.
    type Error;

    /// Whether `r` is what building the collection from the values `items` gives.
    spec fn built_from(items: Seq<Item>, r: Result<Self, Self::Error>) -> bool;

    /// Attempts to build the collection from `iter`.
    fn try_from_iter<I: Iterator<Item = Item>>(iter: I) -> (r: Result<Self, Self::Error>)
        ensures
            iter.obeys_prophetic_iter_laws() ==> Self::built_from(iter.remaining(), r),
    ;
}

impl<A: Array> TryFromIterator<A::Item> for A {
    type Error = IncompleteArrayError;

    /// The array holds the first values, one per slot; there must be enough of them.
    open spec fn built_from(items: Seq<A::Item>, r: Result<A, IncompleteArrayError>) -> bool {
        &&& r is Ok <==> items.len() >= A::spec_capacity()
        &&& r matches Ok(array) ==> array.items() == items.take(A::spec_capacity() as int)
    }

    /// Fills an array with the first values of `iter`; fails when `iter` gives fewer values
    /// than the array has slots. Values beyond the last slot are not taken from `iter`.
    fn try_from_iter<I: Iterator<Item = A::Item>>(iter: I) -> (r: Result<A, IncompleteArrayError>) {
        match StackVec::<A>::from_iter(iter).try_into_array() {
            Ok(array) => Ok(array),
            Err((error, _)) => Err(error),
        }
    }
}

/// Gives every iterator a fallible `collect`.
pub trait TryCollect: Iterator + Sized {
    /// Attempts to build a collection from the iterator's values: it gives what
    /// `C::try_from_iter` gives on this iterator.
    fn try_collect<C: TryFromIterator<Self::Item>>(self) -> (r: Result<C, C::Error>)
        ensures
            self.obeys_prophetic_iter_laws() ==> C::built_from(self.remaining(), r),
    {
        C::try_from_iter(self)
    }
}

impl<I: Iterator> TryCollect for I {}

} // verus!
