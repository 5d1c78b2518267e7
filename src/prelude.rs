//! The items most callers need, to import in one line.

pub use crate::{ArrayIntoIter, StackVec, TryCollect, TryFromIterator, TryInto};
