//! Contracts for the methods of `std::collections::VecDeque` that the
//! tape relies on and that arrive without one.

use std::collections::VecDeque;

use vstd::prelude::*;

verus! {

/// `VecDeque::get_mut`: a mutable reference to the element at `index`, or
/// `None` when `index` is out of bounds. Nothing but that one element can
/// change through the reference.
#[verifier::external_body]
pub(crate) fn get_mut<T>(deque: &mut VecDeque<T>, index: usize) -> (cell: Option<&mut T>)
    ensures
        cell is Some <==> index < old(deque)@.len(),
        cell is None ==> final(deque)@ == old(deque)@,
        cell matches Some(slot) ==> *slot == old(deque)@[index as int]
            && final(deque)@ == old(deque)@.update(index as int, *final(slot)),
{
    deque.get_mut(index)
}

/// `VecDeque::as_slices`: two slices that together hold the elements of
/// the deque, in order.
#[verifier::external_body]
pub(crate) fn as_slices<T>(deque: &VecDeque<T>) -> (halves: (&[T], &[T]))
    ensures
        halves.0@ + halves.1@ == deque@,
{
    deque.as_slices()
}

} // verus!
