use vstd::prelude::*;

use crate::const_vec::{pop_model, push_model, ConstVec};

verus! {

/// The elements after pushing each of `xs` in turn onto the elements `s` of a
/// container of capacity `cap`.
pub open spec fn push_each<T>(cap: nat, s: Seq<T>, xs: Seq<T>) -> Seq<T>
    decreases xs.len(),
{
    if xs.len() == 0 {
        s
    } else {
        push_model(cap, push_each(cap, s, xs.drop_last()), xs.last()).0
    }
}

/// A well-formed ConstVec never holds more elements than its capacity.
pub proof fn lemma_len_within_capacity<T, const N: usize>(v: ConstVec<T, N>)
    requires
        v.well_formed(),
    ensures
        0 <= v@.len() <= N,
{
}

/// Pushing a value onto a container that is not full and then popping gives
/// the value back and leaves the elements as they were.
pub proof fn lemma_push_pop_round_trip<T>(cap: nat, s: Seq<T>, x: T)
    requires
        s.len() < cap,
    ensures
        push_model(cap, s, x).1 == Ok::<(), T>(()),
        pop_model(push_model(cap, s, x).0) == (s, Some(x)),
{
    assert(s.push(x).drop_last() =~= s);
}

/// From empty, a container of capacity `cap` accepts every push up to the
/// `cap`-th, is full exactly after the `cap`-th, and refuses the next one,
/// handing its value back and staying unchanged.
pub proof fn lemma_fullness_boundary<T>(cap: nat, xs: Seq<T>, y: T)
    requires
        xs.len() <= cap,
    ensures
        push_each(cap, Seq::empty(), xs) == xs,
        (push_each(cap, Seq::empty(), xs).len() == cap) == (xs.len() == cap),
        xs.len() < cap ==> push_model(cap, xs, y) == (xs.push(y), Ok::<(), T>(())),
        xs.len() == cap ==> push_model(cap, xs, y) == (xs, Err::<(), T>(y)),
    decreases xs.len(),
{
    if xs.len() > 0 {
        lemma_fullness_boundary(cap, xs.drop_last(), xs.last());
        assert(xs.drop_last().push(xs.last()) =~= xs);
    }
}

/// Popping from an empty container gives nothing and leaves it empty.
pub proof fn lemma_pop_empty<T>()
    ensures
        pop_model(Seq::<T>::empty()) == (Seq::<T>::empty(), None::<T>),
{
}

/// Pushing `a` and then `b` and popping twice gives `b` and then `a`, and the
/// elements as they were before.
pub proof fn lemma_last_in_first_out<T>(cap: nat, s: Seq<T>, a: T, b: T)
    requires
        s.len() + 2 <= cap,
    ensures
        pop_model(push_model(cap, push_model(cap, s, a).0, b).0).1 == Some(b),
        pop_model(pop_model(push_model(cap, push_model(cap, s, a).0, b).0).0) == (s, Some(a)),
{
    assert(s.push(a).push(b).drop_last() =~= s.push(a));
    assert(s.push(a).drop_last() =~= s);
}

} // verus!
