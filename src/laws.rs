//! Laws of the container and of its consuming iterator, stated over their views.

use vstd::prelude::*;

use crate::into_iter::{back_step, front_step};
use crate::stackvec::fill_count;

verus! {

/// An iterator over `s` after its steps are taken in the order of `from_back`
/// (`true`: a `next_back`, `false`: a `next`): the values that the `next` calls gave out,
/// in call order; those that the `next_back` calls gave out, in call order; and what it
/// still holds. Each step is the one that `Iter::next` or `Iter::next_back` states; a step
/// taken once the iterator is empty gives nothing.
pub open spec fn drain<T>(s: Seq<T>, from_back: Seq<bool>) -> (Seq<T>, Seq<T>, Seq<T>)
    decreases from_back.len(),
{
    if from_back.len() == 0 {
        (Seq::empty(), Seq::empty(), s)
    } else {
        let (fronts, backs, left) = drain(s, from_back.drop_last());
        if from_back.last() {
            let (out, rest) = back_step(left);
            match out {
                Some(value) => (fronts, backs.push(value), rest),
                None => (fronts, backs, rest),
            }
        } else {
            let (out, rest) = front_step(left);
            match out {
                Some(value) => (fronts.push(value), backs, rest),
                None => (fronts, backs, rest),
            }
        }
    }
}

/// Building a container of capacity `capacity` from the values `s` keeps the first
/// `min(|s|, capacity)` of them, in order.
pub proof fn lemma_build_keeps_prefix<T>(s: Seq<T>, capacity: nat)
    ensures
        ({
            let kept = s.take(fill_count(0, s.len(), capacity) as int);
            &&& kept.len() == vstd::math::min(s.len() as int, capacity as int)
            &&& forall|i: int| 0 <= i < kept.len() ==> kept[i] == s[i]
        }),
{
}

/// Popping the last value of a non-empty container and pushing it back gives the
/// container it was; the push has room, since the pop made some.
pub proof fn lemma_pop_then_push<T>(v: Seq<T>, capacity: nat)
    requires
        0 < v.len() <= capacity,
    ensures
        v.drop_last().len() < capacity,
        v.drop_last().push(v.last()) == v,
{
    assert(v.drop_last().push(v.last()) =~= v);
}

/// Whatever the order of the steps, the values given out from the front, then those still
/// held, then those given out from the back (last given first) are `s` itself: no value is
/// given out twice, and none is lost.
pub proof fn lemma_iteration_splits_the_values<T>(s: Seq<T>, from_back: Seq<bool>)
    ensures
        ({
            let (fronts, backs, left) = drain(s, from_back);
            &&& fronts + left + backs.reverse() == s
            &&& fronts.len() + backs.len() == vstd::math::min(from_back.len() as int, s.len() as int)
        }),
    decreases from_back.len(),
{
    if from_back.len() > 0 {
        lemma_iteration_splits_the_values(s, from_back.drop_last());
        let (fronts, backs, left) = drain(s, from_back.drop_last());
        if left.len() > 0 {
            if from_back.last() {
                assert(backs.push(left.last()).reverse() =~= seq![left.last()] + backs.reverse());
                assert(fronts + left.drop_last() + backs.push(left.last()).reverse() =~= fronts + left
                    + backs.reverse());
            } else {
                assert(fronts.push(left.first()) + left.drop_first() + backs.reverse() =~= fronts + left
                    + backs.reverse());
            }
        }
    }
}

/// After `k` calls of `next`, the iterator has given out the first `k` values in order.
proof fn lemma_drain_forward<T>(s: Seq<T>, k: nat)
    requires
        k <= s.len(),
    ensures
        drain(s, Seq::new(k, |i: int| false)) == (s.take(k as int), Seq::<T>::empty(), s.skip(k as int)),
    decreases k,
{
    if k > 0 {
        let steps = Seq::new(k, |i: int| false);
        assert(steps.drop_last() =~= Seq::new((k - 1) as nat, |i: int| false));
        lemma_drain_forward(s, (k - 1) as nat);
        assert(s.take(k - 1).push(s.skip(k - 1).first()) =~= s.take(k as int));
        assert(s.skip(k - 1).drop_first() =~= s.skip(k as int));
    }
}

/// After `k` calls of `next_back`, the iterator has given out the last `k` values,
/// last first.
proof fn lemma_drain_backward<T>(s: Seq<T>, k: nat)
    requires
        k <= s.len(),
    ensures
        drain(s, Seq::new(k, |i: int| true)) == (
            Seq::<T>::empty(),
            s.skip(s.len() - k).reverse(),
            s.take(s.len() - k),
        ),
    decreases k,
{
    if k > 0 {
        let steps = Seq::new(k, |i: int| true);
        assert(steps.drop_last() =~= Seq::new((k - 1) as nat, |i: int| true));
        lemma_drain_backward(s, (k - 1) as nat);
        let before = s.take(s.len() - (k - 1));
        assert(s.skip(s.len() - (k - 1)).reverse().push(before.last()) =~= s.skip(s.len() - k).reverse());
        assert(before.drop_last() =~= s.take(s.len() - k));
    }
}

/// Calling `next` until the iterator is exhausted gives out exactly its values, in order.
pub proof fn lemma_forward_iteration_gives_all<T>(s: Seq<T>)
    ensures
        drain(s, Seq::new(s.len(), |i: int| false)) == (s, Seq::<T>::empty(), Seq::<T>::empty()),
{
    lemma_drain_forward(s, s.len());
    assert(s.take(s.len() as int) =~= s);
    assert(s.skip(s.len() as int) =~= Seq::<T>::empty());
}

/// Calling `next_back` until the iterator is exhausted gives out exactly its values,
/// in reverse order.
pub proof fn lemma_backward_iteration_gives_all_reversed<T>(s: Seq<T>)
    ensures
        drain(s, Seq::new(s.len(), |i: int| true)) == (Seq::<T>::empty(), s.reverse(), Seq::<T>::empty()),
{
    lemma_drain_backward(s, s.len());
    assert(s.skip(0) =~= s);
    assert(s.take(0) =~= Seq::<T>::empty());
}

/// However `next` and `next_back` are interleaved, once as many steps as values have been
/// taken, none is left: the front values followed by the back values, reversed, are
/// exactly the iterator's values, each given out once.
pub proof fn lemma_mixed_iteration_gives_each_once<T>(s: Seq<T>, from_back: Seq<bool>)
    requires
        from_back.len() >= s.len(),
    ensures
        ({
            let (fronts, backs, left) = drain(s, from_back);
            &&& left.len() == 0
            &&& fronts + backs.reverse() == s
            &&& fronts.len() + backs.len() == s.len()
        }),
{
    lemma_iteration_splits_the_values(s, from_back);
    let (fronts, backs, left) = drain(s, from_back);
    assert(left =~= Seq::<T>::empty());
    assert(fronts + left =~= fronts);
}

} // verus!
