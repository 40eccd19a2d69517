//! Generic structs, as the classes show them.

use vstd::prelude::*;
use crate::lessons::generics::Point;

verus! {

/// The first coordinate of the point `(5, 10)` and what `xxx` gives for a
/// point whose second coordinate is of another type.
pub fn struct_generic() -> (values: (i32, i32))
    ensures
        values == (5i32, 0i32),
{
    let both_integer: Point<i32, i32> = Point { x: 5, y: 10 };
    let integer_and_bool: Point<i32, bool> = Point { x: 5, y: true };
    let val1: i32 = *both_integer.x();
    let val2: i32 = integer_and_bool.xxx();
    (val1, val2)
}

} // verus!
