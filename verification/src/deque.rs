//! Contracts for the two `VecDeque` accessors the round uses that vstd does
//! not specify.

use vstd::prelude::*;
use std::collections::VecDeque;

verus! {

/// Relies on `VecDeque::back`: a reference to the last element, or `None`
/// when the deque is empty.
#[verifier::external_body]
pub fn deque_back<T>(v: &VecDeque<T>) -> (r: Option<&T>)
    ensures
        v@.len() == 0 ==> r.is_none(),
        v@.len() != 0 ==> r.is_some() && *r.unwrap() == v@.last(),
{
    v.back()
}

/// Relies on `VecDeque::back_mut`: a mutable reference to the last element,
/// or `None` when the deque is empty; no other element moves.
#[verifier::external_body]
pub fn deque_back_mut<T>(v: &mut VecDeque<T>) -> (r: Option<&mut T>)
    ensures
        old(v)@.len() == 0 ==> r.is_none() && final(v)@ == old(v)@,
        old(v)@.len() != 0 ==> r.is_some() && *r.unwrap() == old(v)@.last() && final(v)@ == old(
            v,
        )@.update(old(v)@.len() - 1, *final(r.unwrap())),
{
    v.back_mut()
}

} // verus!
