//! Small helpers over `Vec` used across the crate.

use vstd::prelude::*;

verus! {

/// Borrows one element of a vector mutably.
pub fn vec_index_mut<T>(vec: &mut Vec<T>, i: usize) -> (element: &mut T)
    requires
        0 <= i < old(vec).len(),
    ensures
        *element == old(vec)@[i as int],
        final(vec)@ == old(vec)@.update(i as int, *final(element)),
{
    &mut vec[i]
}

} // verus!
