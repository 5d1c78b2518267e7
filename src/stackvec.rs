//! The container itself: a vector whose capacity is the length of an array type.

use vstd::prelude::*;
use vstd::std_specs::cmp::{PartialEqSpec, PartialEqSpecImpl};
use vstd::std_specs::iter::IteratorSpec;

use crate::array::Array;
use crate::error::{IncompleteArrayError, OutOfCapacityError};

verus! {

/// The number of values that `extend` takes out of `remaining` available ones into a
/// container that holds `len` values out of `capacity`: all of them, up to the free room.
pub open spec fn fill_count(len: nat, remaining: nat, capacity: nat) -> nat {
    if len + remaining <= capacity {
        remaining
    } else if len <= capacity {
        (capacity - len) as nat
    } else {
        0
    }
}

/// Like a `Vec`, but its capacity is fixed by its type: the length of the array type `A`.
///
/// `new` reserves room for every slot at once, and no operation ever holds more values than
/// the capacity. The live values are, in order, the first `len` slots.
#[derive(Clone, Debug, Hash)]
pub struct StackVec<A: Array> {
    items: Vec<A::Item>,
}

impl<A: Array> View for StackVec<A> {
    type V = Seq<A::Item>;

    /// The live values, in order.
    closed spec fn view(&self) -> Seq<A::Item> {
        self.items@
    }
}

impl<A: Array> StackVec<A> {
    /// The container holds no more values than its capacity.
    pub open spec fn wf(&self) -> bool {
        self@.len() <= A::spec_capacity()
    }

    /// The fixed capacity: the length of the array type.
    pub fn capacity(&self) -> (r: usize)
        ensures
            r == A::spec_capacity(),
    {
        A::capacity()
    }

    /// A new, empty container.
    pub fn new() -> (r: Self)
        ensures
            r.wf(),
            r@ == Seq::<A::Item>::empty(),
    {
        StackVec { items: Vec::with_capacity(A::capacity()) }
    }

    /// A full container holding the array's values, in order.
    pub fn from(array: A) -> (r: Self)
        ensures
            r.wf(),
            r@ == array.items(),
            r@.len() == A::spec_capacity(),
    {
        StackVec { items: array.into_vec() }
    }

    /// Moves the live values out, in order.
    pub(crate) fn into_vec(self) -> (r: Vec<A::Item>)
        ensures
            r@ == self@,
    {
        self.items
    }

    /// The number of live values.
    pub fn len(&self) -> (r: usize)
        ensures
            r == self@.len(),
    {
        self.items.len()
    }

    /// Whether the container holds no value.
    pub fn is_empty(&self) -> (r: bool)
        ensures
            r == (self@.len() == 0),
    {
        self.items.len() == 0
    }

    /// Whether every slot holds a value.
    pub fn is_full(&self) -> (r: bool)
        ensures
            r == (self@.len() == A::spec_capacity()),
    {
        self.items.len() == A::capacity()
    }

    /// Adds `value` at the end. The container must not be full.
    pub fn push_unchecked(&mut self, value: A::Item)
        requires
            old(self)@.len() < A::spec_capacity(),
        ensures
            final(self).wf(),
            final(self)@ == old(self)@.push(value),
    {
        self.items.push(value);
    }

    /// Adds `value` at the end if there is room; otherwise hands it back in the error,
    /// leaving the container as it was.
    pub fn try_push(&mut self, value: A::Item) -> (r: Result<(), OutOfCapacityError<A::Item>>)
        ensures
            old(self).wf() ==> final(self).wf(),
            r is Ok <==> old(self)@.len() < A::spec_capacity(),
            r is Ok ==> final(self)@ == old(self)@.push(value),
            r is Err ==> r == Err::<(), _>(OutOfCapacityError(value)) && final(self)@ == old(self)@,
    {
        if self.items.len() >= A::capacity() {
            Err(OutOfCapacityError(value))
        } else {
            self.push_unchecked(value);
            Ok(())
        }
    }

    /// Adds `value` at the end if there is room; otherwise drops it.
    pub fn push_or_ignore(&mut self, value: A::Item)
        ensures
            old(self).wf() ==> final(self).wf(),
            final(self)@ == if old(self)@.len() < A::spec_capacity() {
                old(self)@.push(value)
            } else {
                old(self)@
            },
    {
        if self.items.len() < A::capacity() {
            self.push_unchecked(value);
        }
    }

    /// Removes the last value and returns it, or returns `None` when the container is empty.
    pub fn pop(&mut self) -> (r: Option<A::Item>)
        ensures
            old(self).wf() ==> final(self).wf(),
            old(self)@.len() > 0 ==> r == Some(old(self)@.last()) && final(self)@ == old(self)@.drop_last(),
            old(self)@.len() == 0 ==> r is None && final(self)@ == old(self)@,
    {
        self.items.pop()
    }

    /// Keeps the first `new_len` values and drops the rest, from the last one down.
    /// Does nothing when `new_len` is at least the length.
    pub fn truncate(&mut self, new_len: usize)
        ensures
            old(self).wf() ==> final(self).wf(),
            final(self)@ == if new_len < old(self)@.len() {
                old(self)@.take(new_len as int)
            } else {
                old(self)@
            },
    {
        let ghost start = self@;
        while new_len < self.items.len()
            invariant
                self@.len() <= start.len(),
                new_len < start.len() ==> self@ == start.take(self@.len() as int) && new_len <= self@.len(),
                new_len >= start.len() ==> self@ == start,
            decreases self@.len(),
        {
            proof {
                assert(start.take(self@.len() - 1) =~= self@.drop_last());
            }
            self.items.pop();
        }
    }

    /// Drops every value.
    pub fn clear(&mut self)
        ensures
            old(self).wf() ==> final(self).wf(),
            final(self)@ == Seq::<A::Item>::empty(),
    {
        self.truncate(0)
    }

    /// Returns a view of the live values.
    pub fn as_slice(&self) -> (r: &[A::Item])
        ensures
            r@ == self@,
    {
        self.items.as_slice()
    }

    /// Returns a mutable view of the live values; the length cannot change through it.
    pub fn as_mut_slice(&mut self) -> (r: &mut [A::Item])
        ensures
            r@ == old(self)@,
            final(self)@ == final(r)@,
    {
        self.items.as_mut_slice()
    }

    /// Takes values from `iter` into the free slots, in order, until the container is
    /// full or `iter` is done. No value is taken from `iter` once the container is full:
    /// the values beyond the free room stay in `iter`.
    pub fn extend<I: Iterator<Item = A::Item>>(&mut self, iter: &mut I)
        ensures
            old(self).wf() ==> final(self).wf(),
            old(self)@.is_prefix_of(final(self)@),
            (*old(iter)).obeys_prophetic_iter_laws() ==> ({
                let all = (*old(iter)).remaining();
                let k = fill_count(old(self)@.len(), all.len(), A::spec_capacity()) as int;
                &&& final(self)@ == old(self)@ + all.take(k)
                &&& (*final(iter)).remaining() == all.skip(k)
                &&& (*final(iter)).obeys_prophetic_iter_laws()
            }),
    {
        let ghost start = self@;
        let ghost all = (*iter).remaining();
        let ghost obeys = (*iter).obeys_prophetic_iter_laws();
        let capacity = A::capacity();
        if self.items.len() >= capacity {
            proof {
                assert(all.skip(0) =~= all);
            }
            return;
        }
        while self.items.len() < capacity
            invariant_except_break
                self.wf(),
                capacity == A::spec_capacity(),
                start.is_prefix_of(self@),
                obeys == (*iter).obeys_prophetic_iter_laws(),
                obeys ==> self@.len() - start.len() <= all.len(),
                obeys ==> self@ == start + all.take(self@.len() - start.len()),
                obeys ==> (*iter).remaining() == all.skip(self@.len() - start.len()),
            ensures
                self.wf(),
                start.is_prefix_of(self@),
                obeys == (*iter).obeys_prophetic_iter_laws(),
                obeys ==> self@ == start + all.take(
                    fill_count(start.len(), all.len(), A::spec_capacity()) as int,
                ),
                obeys ==> (*iter).remaining() == all.skip(
                    fill_count(start.len(), all.len(), A::spec_capacity()) as int,
                ),
            decreases A::spec_capacity() - self@.len(),
        {
            match iter.next() {
                Some(value) => {
                    proof {
                        if obeys {
                            assert(all.take(self@.len() - start.len() + 1) =~= all.take(
                                self@.len() - start.len(),
                            ).push(value));
                            assert(all.skip(self@.len() - start.len()).drop_first() =~= all.skip(
                                self@.len() - start.len() + 1,
                            ));
                        }
                    }
                    self.items.push(value);
                },
                None => {
                    break;
                },
            }
        }
    }

    /// A container holding the first values of `iter`, as many as fit.
    pub fn from_iter<I: Iterator<Item = A::Item>>(iter: I) -> (r: Self)
        ensures
            r.wf(),
            iter.obeys_prophetic_iter_laws() ==> r@ == iter.remaining().take(
                fill_count(0, iter.remaining().len(), A::spec_capacity()) as int,
            ),
    {
        let mut iter = iter;
        let mut r = Self::new();
        r.extend(&mut iter);
        r
    }

    /// Turns a full container into the array it stands for, moving each value into its slot.
    /// A container that is not full is handed back, untouched, beside the error.
    pub fn try_into_array(self) -> (r: Result<A, (IncompleteArrayError, Self)>)
        ensures
            r is Ok <==> self@.len() == A::spec_capacity(),
            r matches Ok(array) ==> array.items() == self@,
            r matches Err((_, back)) ==> back@ == self@,
    {
        match A::try_from_vec(self.items) {
            Ok(array) => Ok(array),
            Err(items) => Err((IncompleteArrayError, StackVec { items })),
        }
    }

    /// Fills the free slots, in order, with values made by `factory`.
    pub fn fill_using(&mut self, factory: impl FnMut() -> A::Item)
        requires
            call_requires(factory, ()),
        ensures
            old(self).wf() ==> final(self)@.len() == A::spec_capacity(),
            !old(self).wf() ==> final(self)@ == old(self)@,
            old(self)@.is_prefix_of(final(self)@),
            forall|i: int|
                old(self)@.len() <= i < final(self)@.len() ==> call_ensures(factory, (), #[trigger] final(self)@[i]),
    {
        let ghost start = self@;
        let capacity = A::capacity();
        let mut make = factory;
        while self.items.len() < capacity
            invariant
                start.len() <= A::spec_capacity() ==> self.wf(),
                start.len() > A::spec_capacity() ==> self@ == start,
                capacity == A::spec_capacity(),
                start.is_prefix_of(self@),
                make == factory,
                call_requires(factory, ()),
                forall|i: int| start.len() <= i < self@.len() ==> call_ensures(factory, (), #[trigger] self@[i]),
            decreases A::spec_capacity() - self@.len(),
        {
            let value = make();
            self.items.push(value);
        }
    }
}

impl<A: Array> StackVec<A> where A::Item: Copy {
    /// Fills the free slots with copies of `value`.
    pub fn fill_with(&mut self, value: A::Item)
        ensures
            old(self).wf() ==> final(self)@.len() == A::spec_capacity(),
            !old(self).wf() ==> final(self)@ == old(self)@,
            old(self)@.is_prefix_of(final(self)@),
            forall|i: int| old(self)@.len() <= i < final(self)@.len() ==> #[trigger] final(self)@[i] == value,
    {
        let ghost start = self@;
        let capacity = A::capacity();
        while self.items.len() < capacity
            invariant
                start.len() <= A::spec_capacity() ==> self.wf(),
                start.len() > A::spec_capacity() ==> self@ == start,
                capacity == A::spec_capacity(),
                start.is_prefix_of(self@),
                forall|i: int| start.len() <= i < self@.len() ==> #[trigger] self@[i] == value,
            decreases A::spec_capacity() - self@.len(),
        {
            self.items.push(value);
        }
    }
}

impl<A: Array> Default for StackVec<A> {
    /// A new, empty container.
    fn default() -> (r: Self)
        ensures
            r.wf(),
            r@ == Seq::<A::Item>::empty(),
    {
        Self::new()
    }
}

impl<A: Array> PartialEq for StackVec<A> where A::Item: PartialEq {
    /// Two containers are equal when their live values are, one by one.
    fn eq(&self, other: &Self) -> (r: bool) {
        self.items == other.items
    }
}

impl<A: Array> PartialEqSpecImpl for StackVec<A> where A::Item: PartialEq {
    open spec fn obeys_eq_spec() -> bool {
        <A::Item as PartialEqSpec>::obeys_eq_spec()
    }

    open spec fn eq_spec(&self, other: &Self) -> bool {
        &&& self@.len() == other@.len()
        &&& forall|i: int| 0 <= i < self@.len() ==> (#[trigger] self@[i]).eq_spec(&other@[i])
    }
}

impl<A: Array> Eq for StackVec<A> where A::Item: Eq {}

impl<A: Array> core::ops::Deref for StackVec<A> {
    type Target = [A::Item];

    /// The live values, as a slice.
    fn deref(&self) -> (r: &[A::Item])
        ensures
            r@ == self@,
    {
        self.items.as_slice()
    }
}

impl<A: Array> core::ops::DerefMut for StackVec<A> {
    /// The live values, as a mutable slice.
    fn deref_mut(&mut self) -> (r: &mut [A::Item])
        ensures
            r@ == old(self)@,
            final(self)@ == final(r)@,
    {
        self.items.as_mut_slice()
    }
}

} // verus!
