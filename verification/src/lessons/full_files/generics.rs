//! Generic structs, as the full files show them.

use vstd::prelude::*;
use crate::lessons::generics::Point;

verus! {

/// The first coordinate of the point `(5, 10)` and what `xx` gives for it, a
/// method that only points of two `i32` coordinates have.
pub fn struct_generic() -> (values: (i32, i32))
    ensures
        values == (5i32, 0i32),
{
    let both_integer: Point<i32, i32> = Point { x: 5, y: 10 };
    let _integer_and_bool: Point<i32, bool> = Point { x: 5, y: true };
    let val1: i32 = *both_integer.x();
    let val2: i32 = both_integer.xx();
    (val1, val2)
}

} // verus!
