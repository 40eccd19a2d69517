//! Crates and modules: calling into a crate that comes from the registry.

use vstd::prelude::*;
use crate::text::{decimal, push_decimal};

verus! {

/// `rand::random::<u8>()`: a byte drawn from the generator of the current
/// thread, which the system seeds. Which byte comes is a matter of chance,
/// so nothing is claimed of it. The call panics where the system cannot
/// seed the generator.
#[verifier::external_body]
fn random_byte() -> u8 {
    rand::random::<u8>()
}

/// The line that tells which byte was drawn.
pub open spec fn random_line_text(x: u8) -> Seq<char> {
    "Random u8: "@ + decimal(x as nat)
}

/// The line that tells that the byte `x` was drawn.
pub fn random_line(x: u8) -> (line: String)
    ensures
        line@ == random_line_text(x),
{
    let mut line = "Random u8: ".to_owned();
    push_decimal(&mut line, x as usize);
    line
}

/// Draws a byte at random and returns the line that tells which. Two calls
/// may give different lines; each is the line of some byte.
pub fn externalcall() -> (line: String)
    ensures
        exists|x: u8| line@ == random_line_text(x),
{
    let x: u8 = random_byte();
    random_line(x)
}

} // verus!
