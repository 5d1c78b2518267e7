//! The consuming iterator: it owns the values of a container and gives them out
//! from either end.

use vstd::prelude::*;

use crate::array::Array;
use crate::stackvec::StackVec;

verus! {

/// One call of `next` on an iterator holding `s`: what it gives out, and what is left.
pub open spec fn front_step<T>(s: Seq<T>) -> (Option<T>, Seq<T>) {
    if s.len() > 0 {
        (Some(s.first()), s.drop_first())
    } else {
        (None, s)
    }
}

/// One call of `next_back` on an iterator holding `s`: what it gives out, and what is left.
pub open spec fn back_step<T>(s: Seq<T>) -> (Option<T>, Seq<T>) {
    if s.len() > 0 {
        (Some(s.last()), s.drop_last())
    } else {
        (None, s)
    }
}

/// An iterator that moves the values out of a [`StackVec`], from the front or the back.
///
/// Its slots in `[start, end)` hold the values not given out yet; every other slot is
/// empty. Dropping it drops exactly those remaining values.
pub struct Iter<A: Array> {
    slots: Vec<Option<A::Item>>,
    start: usize,
    end: usize,
}

impl<A: Array> View for Iter<A> {
    type V = Seq<A::Item>;

    /// The values not given out yet, front first.
    closed spec fn view(&self) -> Seq<A::Item> {
        self.slots@.subrange(self.start as int, self.end as int).map_values(|slot: Option<A::Item>| slot->0)
    }
}

impl<A: Array> Iter<A> {
    /// Exactly the slots in `[start, end)` hold a value.
    pub closed spec fn wf(&self) -> bool {
        &&& self.start <= self.end <= self.slots@.len()
        &&& forall|i: int| 0 <= i < self.slots@.len() ==> (#[trigger] self.slots@[i] is Some <==> self.start <= i < self.end)
    }

    /// Gives out the value at the front, or `None` once every value has been given out.
    pub fn next(&mut self) -> (r: Option<A::Item>)
        requires
            old(self).wf(),
        ensures
            final(self).wf(),
            (r, final(self)@) == front_step(old(self)@),
    {
        if self.start < self.end {
            let start = self.start;
            let value = self.slots[start].take();
            self.start = start + 1;
            proof {
                assert(self@ =~= old(self)@.drop_first());
            }
            value
        } else {
            None
        }
    }

    /// Gives out the value at the back, or `None` once every value has been given out.
    pub fn next_back(&mut self) -> (r: Option<A::Item>)
        requires
            old(self).wf(),
        ensures
            final(self).wf(),
            (r, final(self)@) == back_step(old(self)@),
    {
        if self.start < self.end {
            let last = self.end - 1;
            let value = self.slots[last].take();
            self.end = last;
            proof {
                assert(self@ =~= old(self)@.drop_last());
            }
            value
        } else {
            None
        }
    }

    /// The number of values not given out yet.
    pub fn len(&self) -> (r: usize)
        requires
            self.wf(),
        ensures
            r == self@.len(),
    {
        self.end - self.start
    }

    /// Whether every value has been given out.
    pub fn is_empty(&self) -> (r: bool)
        requires
            self.wf(),
        ensures
            r == (self@.len() == 0),
    {
        self.end == self.start
    }

    /// The exact number of values left, as a lower and an upper bound.
    pub fn size_hint(&self) -> (r: (usize, Option<usize>))
        requires
            self.wf(),
        ensures
            r == (self@.len() as usize, Some(self@.len() as usize)),
    {
        let size = self.end - self.start;
        (size, Some(size))
    }
}

impl<A: Array> StackVec<A> {
    /// Turns the container into an iterator over its values, front to back.
    pub fn into_iter(self) -> (r: Iter<A>)
        ensures
            r.wf(),
            r@ == self@,
    {
        let mut items = self.into_vec();
        let n = items.len();
        let mut slots: Vec<Option<A::Item>> = Vec::with_capacity(n);
        while slots.len() < n
            invariant
                n == items@.len(),
                slots@.len() <= n,
                forall|i: int| 0 <= i < slots@.len() ==> #[trigger] slots@[i] is None,
            decreases n - slots@.len(),
        {
            slots.push(None);
        }
        let ghost values = items@;
        while items.len() > 0
            invariant
                slots@.len() == n == values.len(),
                items@.len() <= n,
                items@ == values.take(items@.len() as int),
                forall|i: int| 0 <= i < items@.len() ==> #[trigger] slots@[i] is None,
                forall|i: int| items@.len() <= i < n ==> #[trigger] slots@[i] == Some(values[i]),
            decreases items@.len(),
        {
            let k = items.len() - 1;
            let value = items.pop().unwrap();
            slots[k] = Some(value);
        }
        let r = Iter { slots, start: 0, end: n };
        proof {
            assert(r@ =~= values);
        }
        r
    }
}

/// Gives plain arrays an iterator that moves their values out.
pub trait ArrayIntoIter: Array {
    /// Consumes the array and returns an iterator over its values, front to back.
    fn into_iter(self) -> (r: Iter<Self>)
        ensures
            r.wf(),
            r@ == self.items(),
    {
        StackVec::from(self).into_iter()
    }
}

impl<A: Array> ArrayIntoIter for A {}

} // verus!
