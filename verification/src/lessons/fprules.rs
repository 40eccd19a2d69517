//! One computation, written with a loop and written as a chain of steps.

use vstd::prelude::*;

verus! {

/// Whether `n` is odd.
pub fn is_odd(n: u32) -> (odd: bool)
    ensures
        odd == (n % 2 == 1),
{
    n % 2 == 1
}

/// The sum of the odd squares below `upper`, taken from the square of `n`
/// on: the squares are gone through in rising order, the first that is not
/// below `upper` ends the search, and the odd ones among the others are
/// added up.
pub open spec fn odd_squares_from(n: nat, upper: nat) -> nat
    decreases upper - n,
{
    if n >= upper || n * n >= upper {
        0
    } else {
        odd_squares_from(n + 1, upper) + if (n * n) % 2 == 1 {
            n * n
        } else {
            0
        }
    }
}

/// The sum of all odd squares below `upper`.
pub open spec fn odd_squares_below(upper: nat) -> nat {
    odd_squares_from(0, upper)
}

/// The sum of all odd squares below `upper`, with a loop that ends at the
/// first square that is not below `upper`.
pub fn sum_of_odd_squares(upper: u32) -> (sum: u64)
    ensures
        sum == odd_squares_below(upper as nat),
{
    let mut acc: u64 = 0;
    let mut n: u64 = 0;
    loop
        invariant
            n <= 65536,
            acc <= n * 0x1_0000_0000,
            acc + odd_squares_from(n as nat, upper as nat) == odd_squares_below(upper as nat),
        ensures
            acc == odd_squares_below(upper as nat),
        decreases 65537 - n,
    {
        assert(n * n <= 0x1_0000_0000) by (nonlinear_arith)
            requires
                n <= 65536,
        ;
        let n_squared: u64 = n * n;
        if n_squared >= upper as u64 {
            break;
        }
        assert(n < 65536 && n < upper) by (nonlinear_arith)
            requires
                n * n < upper,
                upper <= 0xffff_ffff,
                n <= 65536,
        ;
        if n_squared % 2 == 1 {
            acc += n_squared;
        }
        n += 1;
    }
    acc
}

/// The sum of the odd squares below `upper`, taken from the square of `n`
/// on, without a loop and without a variable that changes: each step
/// decides about one square and leaves the rest to the next step.
pub fn odd_squares_sum_from(n: u32, upper: u32) -> (sum: u64)
    ensures
        sum == odd_squares_from(n as nat, upper as nat),
        n <= 65536 ==> sum <= (65536 - n) * 0x1_0000_0000,
        n > 65536 ==> sum == 0,
    decreases 0x1_0000_0000 - n,
{
    assert(n * n <= 0xffff_ffff * 0xffff_ffff) by (nonlinear_arith)
        requires
            n <= 0xffff_ffff,
    ;
    let n_squared: u64 = (n as u64) * (n as u64);
    if n_squared >= upper as u64 {
        0
    } else {
        assert(n < 65536 && n < upper) by (nonlinear_arith)
            requires
                n * n < upper,
                upper <= 0xffff_ffff,
        ;
        let rest = odd_squares_sum_from(n + 1, upper);
        if n_squared % 2 == 1 {
            rest + n_squared
        } else {
            rest
        }
    }
}

/// The sum of all odd squares below a thousand, computed with a loop and
/// computed step by step; both ways give 5456.
pub fn fprules() -> (sums: (u64, u64))
    ensures
        sums == (5456u64, 5456u64),
{
    let upper: u32 = 1000;
    let by_loop = sum_of_odd_squares(upper);
    let by_chain = odd_squares_sum_from(0, upper);
    proof {
        lemma_odd_squares_below_thousand();
    }
    (by_loop, by_chain)
}

/// The odd squares below a thousand are those of the odd numbers up to 31,
/// and their sum is 5456.
pub proof fn lemma_odd_squares_below_thousand()
    ensures
        odd_squares_below(1000) == 5456,
{
    assert(odd_squares_from(32, 1000) == 0);
    assert(odd_squares_from(31, 1000) == 961);
    assert(odd_squares_from(30, 1000) == 961);
    assert(odd_squares_from(29, 1000) == 1802);
    assert(odd_squares_from(28, 1000) == 1802);
    assert(odd_squares_from(27, 1000) == 2531);
    assert(odd_squares_from(26, 1000) == 2531);
    assert(odd_squares_from(25, 1000) == 3156);
    assert(odd_squares_from(24, 1000) == 3156);
    assert(odd_squares_from(23, 1000) == 3685);
    assert(odd_squares_from(22, 1000) == 3685);
    assert(odd_squares_from(21, 1000) == 4126);
    assert(odd_squares_from(20, 1000) == 4126);
    assert(odd_squares_from(19, 1000) == 4487);
    assert(odd_squares_from(18, 1000) == 4487);
    assert(odd_squares_from(17, 1000) == 4776);
    assert(odd_squares_from(16, 1000) == 4776);
    assert(odd_squares_from(15, 1000) == 5001);
    assert(odd_squares_from(14, 1000) == 5001);
    assert(odd_squares_from(13, 1000) == 5170);
    assert(odd_squares_from(12, 1000) == 5170);
    assert(odd_squares_from(11, 1000) == 5291);
    assert(odd_squares_from(10, 1000) == 5291);
    assert(odd_squares_from(9, 1000) == 5372);
    assert(odd_squares_from(8, 1000) == 5372);
    assert(odd_squares_from(7, 1000) == 5421);
    assert(odd_squares_from(6, 1000) == 5421);
    assert(odd_squares_from(5, 1000) == 5446);
    assert(odd_squares_from(4, 1000) == 5446);
    assert(odd_squares_from(3, 1000) == 5455);
    assert(odd_squares_from(2, 1000) == 5455);
    assert(odd_squares_from(1, 1000) == 5456);
    assert(odd_squares_from(0, 1000) == 5456);
}

} // verus!
