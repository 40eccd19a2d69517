//! What another module can reach of the structs lesson's types.

use vstd::prelude::*;
use crate::lessons::structs::new_rhombus;

verus! {

/// From here a `Rhombus` cannot be written as a literal, because one of its
/// fields is private; a value made by `new_rhombus` can be had, and its
/// side read.
pub fn _showcase_access() {
    let rr = new_rhombus();
    let _x = rr.side();
    assert(_x == 0);
}

} // verus!
