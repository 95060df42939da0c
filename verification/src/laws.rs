//! Laws of the queue, stated over its model.
//!
//! Every operation of the queue is specified by its effect on the sequence
//! of stored elements, so what holds of traces over that sequence holds of
//! every run of the queue.

use crate::model::{after_pop, contents_after, handed_out, popped, pops, pushed, pushes, Step};
use vstd::prelude::*;

verus! {

/// Running the trace `first + second` is running `first` and then `second`
/// on what `first` left.
pub proof fn lemma_traces_compose<T>(start: Seq<T>, first: Seq<Step<T>>, second: Seq<Step<T>>)
    ensures
        contents_after(start, first + second) == contents_after(
            contents_after(start, first),
            second,
        ),
        handed_out(start, first + second) == handed_out(start, first) + handed_out(
            contents_after(start, first),
            second,
        ),
    decreases second.len(),
{
    if second.len() == 0 {
        assert(first + second =~= first);
    } else {
        assert((first + second).drop_last() =~= first + second.drop_last());
        assert((first + second).last() == second.last());
        lemma_traces_compose(start, first, second.drop_last());
    }
}

/// Insertions alone hand nothing out and leave the inserted values behind
/// what was there, in the order in which they were inserted.
pub proof fn lemma_pushes_append<T>(start: Seq<T>, values: Seq<T>)
    ensures
        contents_after(start, pushes(values)) == start + values,
        handed_out(start, pushes(values)) == Seq::<T>::empty(),
    decreases values.len(),
{
    if values.len() > 0 {
        assert(pushes(values).drop_last() =~= pushes(values.drop_last()));
        lemma_pushes_append(start, values.drop_last());
        assert((start + values.drop_last()).push(values.last()) =~= start + values);
    }
}

/// `n` removals in a row hand out the `n` oldest elements, oldest first, and
/// leave the rest; once the queue is empty, further removals hand out
/// nothing and change nothing.
pub proof fn lemma_pops_take_from_the_front<T>(start: Seq<T>, n: nat)
    ensures
        n <= start.len() ==> handed_out(start, pops(n)) == start.subrange(0, n as int)
            && contents_after(start, pops(n)) == start.subrange(n as int, start.len() as int),
        n > start.len() ==> handed_out(start, pops(n)) == start && contents_after(
            start,
            pops(n),
        ) == Seq::<T>::empty(),
    decreases n,
{
    if n > 0 {
        let fewer = (n - 1) as nat;
        assert(pops::<T>(n).drop_last() =~= pops::<T>(fewer));
        lemma_pops_take_from_the_front(start, fewer);
    }
}

/// First in, first out: a queue that starts empty, takes `values` one after
/// the other and is then asked for as many elements as it took, hands out
/// exactly `values`, in the order of insertion, and ends empty.
pub proof fn lemma_fill_then_drain<T>(values: Seq<T>)
    ensures
        handed_out(Seq::<T>::empty(), pushes(values) + pops(values.len())) == values,
        contents_after(Seq::<T>::empty(), pushes(values) + pops(values.len())) == Seq::<T>::empty(),
{
    let empty = Seq::<T>::empty();
    lemma_traces_compose(empty, pushes(values), pops(values.len()));
    lemma_pushes_append(empty, values);
    assert(empty + values =~= values);
    lemma_pops_take_from_the_front(values, values.len());
}

/// However insertions and removals interleave, the elements leave in the
/// order in which they came: what has been handed out so far, followed by
/// what is still stored, is what the queue held at the start followed by
/// everything inserted since. So of two stored elements, the one inserted
/// first is nearer the front and is removed first.
pub proof fn lemma_removals_follow_insertions<T>(start: Seq<T>, steps: Seq<Step<T>>)
    ensures
        handed_out(start, steps) + contents_after(start, steps) == start + pushed(steps),
    decreases steps.len(),
{
    if steps.len() > 0 {
        let earlier = steps.drop_last();
        lemma_removals_follow_insertions(start, earlier);
        let out = handed_out(start, earlier);
        let held = contents_after(start, earlier);
        match steps.last() {
            Step::Push(v) => {
                assert(out + held.push(v) =~= (out + held).push(v));
                assert((start + pushed(earlier)).push(v) =~= start + pushed(earlier).push(v));
            },
            Step::Pop => {
                if held.len() > 0 {
                    assert(out.push(held[0]) + held.drop_first() =~= out + held);
                }
            },
        }
    }
}

/// Neither operation lets an element overtake another: an insertion puts
/// the new element behind all stored ones and leaves those in place; a
/// removal hands out the front and moves every other element one place
/// forward.
pub proof fn lemma_no_overtaking<T>(held: Seq<T>, v: T)
    ensures
        held.push(v).len() == held.len() + 1,
        held.push(v)[held.len() as int] == v,
        forall|i: int| 0 <= i < held.len() ==> #[trigger] held.push(v)[i] == held[i],
        held.len() > 0 ==> popped(held) == Some(held[0]) && after_pop(held).len() == held.len() - 1,
        forall|i: int| 1 <= i < held.len() ==> after_pop(held)[i - 1] == #[trigger] held[i],
{
}

/// A queue that has been emptied is as good as new: the next element
/// inserted is the next one removed, and the queue is empty again after it.
pub proof fn lemma_reusable_after_drain<T>(drained: Seq<T>, v: T)
    requires
        drained.len() == 0,
    ensures
        popped(drained.push(v)) == Some(v),
        after_pop(drained.push(v)) == drained,
{
    assert(drained.push(v).drop_first() =~= drained);
}

/// Asking an empty queue for an element, any number of times, yields
/// nothing and leaves it empty.
pub proof fn lemma_exhausted_stays_exhausted<T>(drained: Seq<T>, n: nat)
    requires
        drained.len() == 0,
    ensures
        popped(drained) is None,
        after_pop(drained) == drained,
        handed_out(drained, pops(n)) == Seq::<T>::empty(),
        contents_after(drained, pops(n)) == drained,
{
    assert(drained =~= Seq::<T>::empty());
    lemma_pops_take_from_the_front(drained, n);
}

} // verus!
