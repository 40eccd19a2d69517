//! Lifetimes: how long a reference may be used.

use vstd::prelude::*;
use vstd::utf8::{encode_utf8, is_ascii_chars_encode_utf8};

verus! {

/// An account whose text fields are borrowed for one lifetime.
pub struct User<'a> {
    pub username: &'a str,
    pub email: &'a str,
    pub sign_in_count: u64,
    pub active: bool,
}

/// An account whose text fields live as long as the program.
pub struct User2 {
    pub username: &'static str,
    pub email: &'static str,
    pub sign_in_count: u64,
    pub active: bool,
}

/// An account that borrows numbers.
pub struct IntUser<'a> {
    pub username: &'a i32,
    pub email: &'a i32,
    pub sign_in_count: u64,
    pub active: bool,
}

/// An account whose two text fields are borrowed for different lifetimes.
#[allow(non_camel_case_types)]
pub struct Good_User<'a, 'b> {
    pub username: &'a str,
    pub email: &'b str,
    pub sign_in_count: u64,
    pub active: bool,
}

/// A borrowed part of a longer text.
pub struct ImportantExcerpt<'a> {
    pub part: &'a str,
}

/// The length of a text in the bytes of its UTF-8 encoding, which is what
/// `len` measures.
pub open spec fn byte_len(text: Seq<char>) -> usize {
    encode_utf8(text).len() as usize
}

/// The longer of two texts, by length in bytes; the second when they are
/// equally long. Both arguments and the result share one lifetime.
pub fn correct_longest<'a>(x: &'a str, y: &'a str) -> (longest: &'a str)
    ensures
        longest@ == if byte_len(x@) > byte_len(y@) {
            x@
        } else {
            y@
        },
{
    if x.len() > y.len() {
        x
    } else {
        y
    }
}

/// Always the second text: the result has the second argument's lifetime,
/// so the first argument cannot be returned.
pub fn another_longest<'a, 'b>(x: &'a str, y: &'b str) -> (chosen: &'b str)
    ensures
        chosen@ == y@,
{
    return y;
}

/// A literal: the only text that fits a result lifetime that is tied to
/// neither argument.
pub fn what<'a, 'b, 'c>(x: &'a str, y: &'b str) -> (text: &'c str)
    ensures
        text@ == "Asd"@,
{
    return "Asd";
}

/// The longer of two texts, as `correct_longest` gives it: the first
/// argument outlives the second, so either may be returned with the
/// second's lifetime.
pub fn outliving_longest<'b, 'a: 'b>(x: &'a str, y: &'b str) -> (longest: &'b str)
    ensures
        longest@ == if byte_len(x@) > byte_len(y@) {
            x@
        } else {
            y@
        },
{
    if x.len() > y.len() {
        x
    } else {
        y
    }
}

/// Two users borrow the same numbers; the inner one also borrows a number
/// that lives in the inner block only, and ends with it.
pub fn testintuser() {
    let i: i32 = 5;
    let j: i32 = 10;
    let user = IntUser { email: &i, username: &i, active: true, sign_in_count: 1 };
    {
        let k: i32 = 20;
        let user2 = IntUser { email: &i, username: &k, active: true, sign_in_count: 1 };
        assert(*user2.username == 20 && *user2.email == 5);
    }
    assert(*user.username == 5 && j == 10);
}

/// A user whose two borrowed fields have lifetimes of their own.
pub fn use_lifetimes() {
    let user1 = Good_User {
        email: "someone@example.com",
        username: "someusername123",
        active: true,
        sign_in_count: 1,
    };
    assert(user1.email@ == "someone@example.com"@);
}

/// Structs that borrow their texts, and a reference that is made to point
/// at a number of the enclosing block before its own block ends. Returns
/// that number.
pub fn lifetime_test() -> (r: i32)
    ensures
        r == 0,
{
    let _user1 = User {
        email: "someone@example.com",
        username: "someusername123",
        active: true,
        sign_in_count: 1,
    };
    let _user2 = User2 {
        email: "someone@example.com",
        username: "someusername123",
        active: true,
        sign_in_count: 1,
    };
    let r: i32 = 0;
    {
        let five: i32 = 5;
        let mut x: &i32 = &five;
        x = &r;
        assert(*x == 0);
    }
    r
}

/// The longer of `hi` and `there`, asked for while both strings are alive:
/// the result borrows from one of them and is copied before they go.
pub fn uselongest() -> (longest: String)
    ensures
        longest@ == "there"@,
{
    let x = "hi".to_owned();
    let longest = {
        let y = "there".to_owned();
        let z = correct_longest(x.as_str(), y.as_str());
        proof {
            reveal_strlit("hi");
            reveal_strlit("there");
            is_ascii_chars_encode_utf8("hi"@);
            is_ascii_chars_encode_utf8("there"@);
        }
        z.to_owned()
    };
    longest
}

} // verus!
