//! First steps: numbers, control flow, and functions that can be tested.

use vstd::prelude::*;
use vstd::string::StringExecFns;
use crate::std_specs::{parse_u32, parsed_u32, trimmed};
use crate::text::{decimal, push_decimal};

verus! {

/// Doubles `x`; the second argument is ignored. The name says what to think
/// of that: a test that expects a sum finds the fault.
pub fn crapadd(x: i32, _y: i32) -> (r: i32)
    requires
        i32::MIN <= x + x <= i32::MAX,
    ensures
        r == x + x,
{
    return x + x;
}

/// Adds `x` and `y`.
pub fn okadd(x: i32, y: i32) -> (r: i32)
    requires
        i32::MIN <= x + y <= i32::MAX,
    ensures
        r == x + y,
{
    x + y
}

/// What is said for `n` in the counting game: `fizzbuzz` for a multiple of
/// fifteen, `fizz` for another multiple of three, `buzz` for another
/// multiple of five, and else the number.
pub open spec fn fizzbuzz_text(n: nat) -> Seq<char> {
    if n % 15 == 0 {
        "fizzbuzz"@
    } else if n % 3 == 0 {
        "fizz"@
    } else if n % 5 == 0 {
        "buzz"@
    } else {
        decimal(n)
    }
}

/// What is said for `n` in the counting game.
pub fn fizzbuzz(n: u32) -> (said: String)
    ensures
        said@ == fizzbuzz_text(n as nat),
{
    if n % 15 == 0 {
        "fizzbuzz".to_owned()
    } else if n % 3 == 0 {
        "fizz".to_owned()
    } else if n % 5 == 0 {
        "buzz".to_owned()
    } else {
        let mut said = String::new();
        push_decimal(&mut said, n as usize);
        said
    }
}

/// The index that a line of input names: the line without the whitespace
/// around it, read as a number. None if that is not a number.
pub fn parse_index(line: &str) -> (index: Option<u32>)
    ensures
        index == parsed_u32(trimmed(line@)),
{
    match parse_u32(line.trim()) {
        Ok(i) => Some(i),
        Err(_) => None,
    }
}

/// The element of `a` at `index`, if there is one.
pub fn element_at(a: &[i32; 5], index: u32) -> (element: Option<i32>)
    ensures
        element == if index < 5 {
            Some(a@[index as int])
        } else {
            None
        },
{
    if index < 5 {
        Some(a[index as usize])
    } else {
        None
    }
}

/// The `k`-th line of what `expressions` shows. There are 63 lines: four
/// of a loop that is left with `break`, four of a countdown from four, the
/// fifty of the counting game from one on, and five of a walk over the
/// array of the tens from ten to fifty.
pub open spec fn expressions_line(k: int) -> Seq<char> {
    if k < 4 {
        "This will never stop"@
    } else if k < 8 {
        "Cycle with while "@ + decimal((8 - k) as nat) + "!"@
    } else if k < 58 {
        fizzbuzz_text((k - 7) as nat)
    } else {
        "Iteration loop: the value is: "@ + decimal(((k - 57) * 10) as nat)
    }
}

/// The three kinds of loop: a loop without a condition, left with `break`
/// after four rounds; a `while` loop that counts back down to zero; and
/// `for` loops, over the numbers from one to fifty for the counting game
/// and over the elements of an array. Returns the lines shown, in order.
pub fn expressions() -> (lines: Vec<String>)
    ensures
        lines@.len() == 63,
        forall|k: int| 0 <= k < 63 ==> (#[trigger] lines@[k])@ == expressions_line(k),
{
    let mut lines: Vec<String> = Vec::new();
    let mut c: usize = 0;
    loop
        invariant_except_break
            c < 4,
        invariant
            lines@.len() == c,
            forall|k: int| 0 <= k < lines@.len() ==> (#[trigger] lines@[k])@ == expressions_line(k),
        ensures
            c == 4,
        decreases 4 - c,
    {
        lines.push("This will never stop".to_owned());
        c += 1;
        if c == 4 {
            break;
        }
    }
    while c != 0
        invariant
            c <= 4,
            lines@.len() == 8 - c,
            forall|k: int| 0 <= k < lines@.len() ==> (#[trigger] lines@[k])@ == expressions_line(k),
        decreases c,
    {
        let mut line = "Cycle with while ".to_owned();
        push_decimal(&mut line, c);
        line.append("!");
        lines.push(line);
        c -= 1;
    }
    for n in 1..51u32
        invariant
            lines@.len() == n + 7,
            forall|k: int| 0 <= k < lines@.len() ==> (#[trigger] lines@[k])@ == expressions_line(k),
    {
        lines.push(fizzbuzz(n));
    }
    let a: [usize; 5] = [10, 20, 30, 40, 50];
    for element in it: a.iter()
        invariant
            it.seq() == a@.as_ref(),
            a@ == seq![10usize, 20usize, 30usize, 40usize, 50usize],
            lines@.len() == 58 + it.index(),
            forall|k: int| 0 <= k < lines@.len() ==> (#[trigger] lines@[k])@ == expressions_line(k),
    {
        let mut line = "Iteration loop: the value is: ".to_owned();
        push_decimal(&mut line, *element);
        lines.push(line);
    }
    lines
}

/// An array of two pairs is shown, then replaced by an array of its first
/// pair and another pair, then changed in one field of its second pair.
/// Returns the array as it is shown each time.
pub fn array_steps() -> (shown: ([(i32, i32); 2], [(i32, i32); 2], [(i32, i32); 2]))
    ensures
        shown.0@ == seq![(1i32, 2i32), (1i32, 4i32)],
        shown.1@ == seq![(1i32, 2i32), (4i32, 5i32)],
        shown.2@ == seq![(1i32, 2i32), (3i32, 5i32)],
{
    let mut aa: [(i32, i32); 2] = [(1, 2), (1, 4)];
    let first = aa;
    aa = [aa[0], (4, 5)];
    let second = aa;
    aa[1].0 = 3;
    (first, second, aa)
}

} // verus!
