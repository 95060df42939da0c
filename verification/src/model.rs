//! The mathematical model of a queue: a sequence whose front is the oldest
//! element, and the effect of traces of operations on it.

use vstd::prelude::*;

verus! {

/// What a removal hands out of the contents `s`: the front element, or
/// nothing when `s` is empty.
pub open spec fn popped<T>(s: Seq<T>) -> Option<T> {
    if s.len() == 0 {
        None
    } else {
        Some(s[0])
    }
}

/// What a removal leaves of the contents `s`: everything behind the front,
/// or `s` itself when it is empty.
pub open spec fn after_pop<T>(s: Seq<T>) -> Seq<T> {
    if s.len() == 0 {
        s
    } else {
        s.drop_first()
    }
}

/// One operation on a queue.
pub enum Step<T> {
    /// Insert the value at the back.
    Push(T),
    /// Remove the front element, if there is one.
    Pop,
}

/// The contents of a queue that held `start` and then went through `steps`.
pub open spec fn contents_after<T>(start: Seq<T>, steps: Seq<Step<T>>) -> Seq<T>
    decreases steps.len(),
{
    if steps.len() == 0 {
        start
    } else {
        let before = contents_after(start, steps.drop_last());
        match steps.last() {
            Step::Push(v) => before.push(v),
            Step::Pop => after_pop(before),
        }
    }
}

/// The elements that the removals among `steps` handed out, in the order in
/// which they came, from a queue that held `start`.
pub open spec fn handed_out<T>(start: Seq<T>, steps: Seq<Step<T>>) -> Seq<T>
    decreases steps.len(),
{
    if steps.len() == 0 {
        Seq::empty()
    } else {
        let earlier = handed_out(start, steps.drop_last());
        match steps.last() {
            Step::Push(_) => earlier,
            Step::Pop => match popped(contents_after(start, steps.drop_last())) {
                Some(v) => earlier.push(v),
                None => earlier,
            },
        }
    }
}

/// The values that the insertions among `steps` put in, in order.
pub open spec fn pushed<T>(steps: Seq<Step<T>>) -> Seq<T>
    decreases steps.len(),
{
    if steps.len() == 0 {
        Seq::empty()
    } else {
        let earlier = pushed(steps.drop_last());
        match steps.last() {
            Step::Push(v) => earlier.push(v),
            Step::Pop => earlier,
        }
    }
}

/// The trace that inserts each element of `values`, in order.
pub open spec fn pushes<T>(values: Seq<T>) -> Seq<Step<T>> {
    Seq::new(values.len(), |i: int| Step::Push(values[i]))
}

/// The trace of `n` removals.
pub open spec fn pops<T>(n: nat) -> Seq<Step<T>> {
    Seq::new(n, |i: int| Step::Pop)
}

} // verus!
