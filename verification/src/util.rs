//! Small carriers used by the operations.

use vstd::prelude::*;

verus! {

/// A value held for reading and changing in place.
#[derive(Debug)]
pub struct Mutable<T> {
    value: T,
}

impl<T> View for Mutable<T> {
    type V = T;

    closed spec fn view(&self) -> T {
        self.value
    }
}

/// The place that `index` names in a list of `len` items. An index above
/// zero counts from the front; zero and the indices below it count back
/// from the end, so that zero names the place just past the last item and
/// `-1` the last item.
pub open spec fn wrapped(len: nat, index: int) -> int {
    if index > 0 {
        index
    } else {
        index + len
    }
}

impl<T> Mutable<T> {
    /// Takes hold of `obj`.
    pub fn new(obj: T) -> (held: Self)
        ensures
            held@ == obj,
    {
        Mutable { value: obj }
    }

    /// The value held.
    pub fn borrow(&self) -> (value: &T)
        ensures
            *value == self@,
    {
        &self.value
    }

    /// The value held, for changing in place: what is written through the
    /// reference is what is held afterwards.
    pub fn borrow_mut(&mut self) -> (value: &mut T)
        ensures
            *value == old(self)@,
            final(self)@ == *final(value),
    {
        &mut self.value
    }
}

impl<T: Clone> Mutable<Vec<T>> {
    /// The place that `index` names in the list held, for an index that
    /// names a place at or after the front.
    pub fn wrapped_index(&self, index: i128) -> (at: usize)
        requires
            0 <= wrapped(self@@.len(), index as int) <= usize::MAX,
        ensures
            at == wrapped(self@@.len(), index as int),
    {
        if index > 0 {
            return index as usize;
        }
        let wrapped: i128 = index + self.value.len() as i128;

        return wrapped as usize;
    }
}

impl<T: Clone, const N: usize> Mutable<[T; N]> {
    /// The place that `index` names in the array held, for an index that
    /// names a place at or after the front.
    pub fn wrapped_index(&self, index: i128) -> (at: usize)
        requires
            0 <= wrapped(N as nat, index as int) <= usize::MAX,
        ensures
            at == wrapped(N as nat, index as int),
    {
        if index > 0 {
            return index as usize;
        }
        let wrapped: i128 = index + self.value.len() as i128;

        return wrapped as usize;
    }
}

/// An account that has just been allotted and is still to be filled in,
/// with the bump its address was derived with, where there was one.
#[derive(Clone, Debug, PartialEq, Eq)]
pub struct Empty<T: Clone> {
    pub account: T,
    pub bump: Option<u8>,
}

} // verus!
