//! Small helpers on platform data.

use vstd::prelude::*;

verus! {

/// The length of a NUL-terminated wide string stored in a fixed buffer: the
/// position of the first zero, or the whole buffer when there is none.
pub fn find_terminal_idx(content: &[u16]) -> (r: usize)
    ensures
        r <= content@.len(),
        forall|j: int| 0 <= j < r ==> content@[j] != 0,
        r < content@.len() ==> content@[r as int] == 0,
{
    let mut i: usize = 0;
    while i < content.len()
        invariant
            i <= content@.len(),
            forall|j: int| 0 <= j < i ==> content@[j] != 0,
        decreases content@.len() - i,
    {
        if content[i] == 0 {
            return i;
        }
        i = i + 1;
    }
    content.len()
}

} // verus!
