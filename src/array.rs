use vstd::prelude::*;

verus! {

/// Keeps [`Array`] implemented for plain arrays only.
pub trait Sealed {}

/// A fixed-size buffer: a plain array `[T; N]` whose length is fixed by its type.
///
/// It carries no liveness information of its own; a container built on it decides
/// which of its slots hold values.
pub trait Array: Sealed + Sized {
    /// The type of each slot.
    type Item;

    /// The number of slots, fixed by the type.
    spec fn spec_capacity() -> nat;

    /// The values held in the slots, in order.
    spec fn items(&self) -> Seq<Self::Item>;

    /// The number of slots.
    fn capacity() -> (r: usize)
        ensures
            r == Self::spec_capacity(),
    ;

    /// Moves every slot's value, in order, into a vector.
    fn into_vec(self) -> (r: Vec<Self::Item>)
        ensures
            r@ == self.items(),
            r@.len() == Self::spec_capacity(),
    ;

    /// Moves the values of `v` into an array when there are exactly as many as slots;
    /// otherwise hands `v` back untouched.
    fn try_from_vec(v: Vec<Self::Item>) -> (r: Result<Self, Vec<Self::Item>>)
        ensures
            match r {
                Ok(a) => v@.len() == Self::spec_capacity() && a.items() == v@,
                Err(w) => v@.len() != Self::spec_capacity() && w@ == v@,
            },
    ;
}

impl<T, const N: usize> Sealed for [T; N] {}

impl<T, const N: usize> Array for [T; N] {
    type Item = T;

    open spec fn spec_capacity() -> nat {
        N as nat
    }

    open spec fn items(&self) -> Seq<T> {
        self@
    }

    fn capacity() -> (r: usize) {
        N
    }

    fn into_vec(self) -> (r: Vec<T>) {
        array_to_vec(self)
    }

    fn try_from_vec(v: Vec<T>) -> (r: Result<Self, Vec<T>>) {
        vec_to_array(v)
    }
}

/// Relies on `<Vec<T> as From<[T; N]>>::from`: the vector holds the array's values in order.
#[verifier::external_body]
fn array_to_vec<T, const N: usize>(a: [T; N]) -> (r: Vec<T>)
    ensures
        r@ == a@,
{
    Vec::from(a)
}

/// Relies on `<[T; N] as TryFrom<Vec<T>>>::try_from`: it succeeds exactly when the
/// vector's length is `N`, keeping the order, and otherwise returns the vector as it was.
#[verifier::external_body]
fn vec_to_array<T, const N: usize>(v: Vec<T>) -> (r: Result<[T; N], Vec<T>>)
    ensures
        match r {
            Ok(a) => v@.len() == N && a@ == v@,
            Err(w) => v@.len() != N && w@ == v@,
        },
{
    <[T; N]>::try_from(v)
}

} // verus!
