//! The errors that the container's fallible operations return.

use vstd::prelude::*;

verus! {

/// Returned by [`StackVec::try_push`](crate::StackVec::try_push) when the container is
/// full: it hands the rejected value back to the caller.
#[derive(Clone, Copy, Debug)]
pub struct OutOfCapacityError<T>(pub T);

impl<T> OutOfCapacityError<T> {
    /// What went wrong, in words.
    pub fn description(&self) -> (r: &'static str)
        ensures
            r@ == "Attempted to add an element to a full StackVec"@,
    {
        "Attempted to add an element to a full StackVec"
    }
}

/// Returned when a container that is not full is asked to become a full array.
#[derive(Clone, Copy, Debug, PartialEq, Eq)]
pub struct IncompleteArrayError;

impl IncompleteArrayError {
    /// What went wrong, in words.
    pub fn description(&self) -> (r: &'static str)
        ensures
            r@ == "Cannot build an incomplete array."@,
    {
        "Cannot build an incomplete array."
    }
}

} // verus!
