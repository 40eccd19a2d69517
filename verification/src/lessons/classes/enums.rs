//! Enums and options, as the classes show them: the examples whose course
//! of events differs from that of the full files.

use vstd::prelude::*;
use crate::lessons::enums::{both_same, first_field, IpAddr};

verus! {

/// An absent number is not a number: `None` has to be tested for before
/// the value inside a `Some` is taken out.
pub fn option() {
    let x: i8 = 5;
    let y: Option<i8> = None;
    let nopt: Option<i32> = None;
    let opt = Some(10);
    if nopt.is_none() {
        assert(y is None);
    }
    let v = opt.unwrap();
    assert(v == 10);
    assert(x == 5);
}

/// Always `Some("asd")`.
pub fn retop() -> (r: Option<String>)
    ensures
        r matches Some(s) && s@ == "asd"@,
{
    return Some("asd".to_owned());
}

/// The question mark returns early on `None`; as `retop` never gives
/// `None`, the end is reached and the answer is `Some(4)`.
pub fn qm() -> (r: Option<i32>)
    ensures
        r == Some(4i32),
{
    let _x: Result<(), ()> = Ok(());
    let _r = retop()?;
    let _r = match retop() {
        Some(z) => z,
        None => return None,
    };
    return Some(4);
}

/// What `qm` and `retop` return.
pub fn testqm() -> (received: (Option<i32>, Option<String>))
    ensures
        received.0 == Some(4i32),
        received.1 matches Some(s) && s@ == "asd"@,
{
    (qm(), retop())
}

/// The line that a match says of an address. The arm for the loopback
/// address stands before the arm for every other address of version four,
/// so it is the one taken for an address that starts with 127.
pub open spec fn address_line(address: IpAddr) -> Seq<char> {
    match address {
        IpAddr::V4(first, _, _, _) => if first == 127 {
            "Is V4 loopback"@
        } else {
            "Is V4"@
        },
        IpAddr::V6(_) => "Is V6"@,
        IpAddr::V0() => " errror"@,
    }
}

/// What a match says of an address.
pub fn describe_address(address: &IpAddr) -> (line: &'static str)
    ensures
        line@ == address_line(*address),
{
    match address {
        IpAddr::V4(127, _b, _c, _d) => "Is V4 loopback",
        IpAddr::V4(_a, _b, _c, _d) => "Is V4",
        IpAddr::V6(_a) => "Is V6",
        _ => " errror",
    }
}

/// What matching finds: the line said of the address `127.0.0.1`, the
/// first field of the address `10.20.30.40`, and whether `Some(3)` and
/// `None` hold the same number. The value of `Some(3)` is then taken out
/// with `unwrap` and with `expect`, both of which find it.
pub fn patternmatching() -> (found: (String, i32, bool))
    ensures
        found.0@ == "Is V4 loopback"@,
        found.1 == 10,
        found.2 == false,
{
    let home = IpAddr::V4(127, 0, 0, 1);
    let loopback = IpAddr::V6("::1".to_owned());
    let line = describe_address(&home);
    let _variable = match loopback {
        IpAddr::V4(127, _b, _c, _d) => Some(loopback),
        _ => None,
    };
    let firstfield = first_field(&IpAddr::V4(10, 20, 30, 40));
    let nopt: Option<i32> = None;
    let opt: Option<i32> = Some(3);
    let test_eq = both_same(opt, nopt);
    let _issome = nopt.is_some();
    let _isnone = opt.is_none();
    let content = opt.unwrap();
    let exp = opt.expect("insert error message here");
    assert(content == 3 && exp == 3);
    (line.to_owned(), firstfield, test_eq)
}

} // verus!
