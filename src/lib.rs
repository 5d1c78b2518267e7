//! A vector-like container whose storage is sized by a plain array type: `StackVec<[T; N]>`
//! holds up to `N` values of type `T`, reserves room for all of them once, and never grows.
//!
//! A full container turns into the array itself; one that is not full is handed back with an
//! error. A consuming iterator gives the values out from either end.

mod array;
mod into_iter;
mod stackvec;
mod try_from_iter;

pub mod error;
pub mod laws;
pub mod prelude;

pub use array::Array;
pub use error::{IncompleteArrayError, OutOfCapacityError};
pub use into_iter::Iter as IntoIter;
pub use into_iter::{back_step, front_step, ArrayIntoIter, Iter};
pub use stackvec::{fill_count, StackVec};
pub use try_from_iter::{TryCollect, TryFromIterator, TryInto};
