//! First steps, as the full files show them.

use vstd::prelude::*;

verus! {

/// The index that is looked up for the index that was put in: an index
/// above five is taken down to five. The array has five elements, so an
/// index of five is still one too many.
pub fn clamped_index(i: u32) -> (index: u32)
    ensures
        index == if i > 5 {
            5u32
        } else {
            i
        },
{
    let mut i = i;
    if i > 5 {
        i = 5;
    }
    i
}

} // verus!
