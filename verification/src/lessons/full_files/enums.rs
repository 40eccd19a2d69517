//! Enums and options, as the full files show them: the examples whose
//! course of events differs from that of the classes.

use vstd::prelude::*;
use crate::lessons::enums::{both_same, first_field, retn, IpAddr};

verus! {

/// The value inside a `Some` can be taken out and added to a number; an
/// absent number could not be.
pub fn option() {
    let x: i8 = 5;
    let y: Option<i8> = Some(5);
    let sum = x + y.unwrap();
    let nopt: Option<i32> = None;
    let opt = Some(10);
    assert(sum == 10);
    assert(nopt is None && opt == Some(10i32));
}

/// Always `Some(3)`.
pub fn retop() -> (r: Option<i32>)
    ensures
        r == Some(3i32),
{
    return Some(3);
}

/// The question mark returns early on `None`; as `retn` always gives
/// `None`, the end is never reached and the answer is `None`.
pub fn qm() -> (r: Option<i32>)
    ensures
        r is None,
{
    let _r = retn()?;
    return Some(4);
}

/// What `qm` and `retop` return: the `None` that `qm` hands on does not
/// keep `retop` from being asked.
pub fn testqm() -> (received: (Option<i32>, Option<i32>))
    ensures
        received.0 is None,
        received.1 == Some(3i32),
{
    (qm(), retop())
}

/// The line that a match says of an address. The arm for every address of
/// version four stands first, so the arm for the loopback address, which
/// comes after it, is never taken.
pub open spec fn address_line(address: IpAddr) -> Seq<char> {
    match address {
        IpAddr::V4(_, _, _, _) => "Is V4"@,
        IpAddr::V6(_) => "Is V6"@,
        IpAddr::V0() => " catch all"@,
    }
}

/// What a match says of an address.
#[allow(unreachable_patterns)]
pub fn describe_address(address: &IpAddr) -> (line: &'static str)
    ensures
        line@ == address_line(*address),
{
    match address {
        IpAddr::V4(_a, _b, _c, _d) => "Is V4",
        IpAddr::V4(127, _b, _c, _d) => "Is V4 loopback",
        IpAddr::V6(_a) => "Is V6",
        _ => " catch all",
    }
}

/// What matching finds: the line said of the address `127.0.0.1`, the
/// first field of the address `10.20.30.40`, and whether `Some(3)` and
/// `None` hold the same number. The example ends by asking the empty option
/// for its value with `expect`, which stops the program with the message
/// given; that last step is the caller's, and the option to ask is returned
/// as the fourth value.
pub fn patternmatching() -> (found: (String, i32, bool, Option<i32>))
    ensures
        found.0@ == "Is V4"@,
        found.1 == 10,
        found.2 == false,
        found.3 is None,
{
    let home = IpAddr::V4(127, 0, 0, 1);
    let loopback = IpAddr::V6("::1".to_owned());
    let line = describe_address(&home);
    let _variable = match loopback {
        IpAddr::V4(127, _b, _c, _d) => Some(loopback),
        _ => None,
    };
    let firstfield = first_field(&IpAddr::V4(10, 20, 30, 40));
    let nopt: Option<i32> = None;
    let opt: Option<i32> = Some(3);
    let test_eq = both_same(opt, nopt);
    let _issome = nopt.is_some();
    let isnone = opt.is_none();
    if isnone {
        let _content = opt.unwrap();
    }
    (line.to_owned(), firstfield, test_eq, nopt)
}

} // verus!
