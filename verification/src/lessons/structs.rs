//! Structs, their methods, and who owns their fields.

use vstd::prelude::*;
use vstd::string::StringExecFns;
use crate::text::{decimal, push_decimal};

verus! {

/// An account, with owned text fields.
pub struct User {
    pub username: String,
    pub email: String,
    pub sign_in_count: u64,
    pub active: bool,
}

/// Builds users in the ways the language offers: field by field, with the
/// field-init shorthand, by assigning to fields of a mutable value, and
/// from the fields of another user.
pub fn struct_usage() {
    let _user0 = User {
        email: "someone@example.com".to_owned(),
        username: "someusername123".to_owned(),
        active: true,
        sign_in_count: 1,
    };
    let mut user1 = User {
        email: "someone@example.com".to_owned(),
        username: "someusername123".to_owned(),
        active: true,
        sign_in_count: 1,
    };
    user1.email = String::new();
    user1.username = String::new();
    assert(user1.email@.len() == 0);
    let email = "someone@example.com".to_owned();
    let username = "someusername123".to_owned();
    let _user2 = User { email, username, active: true, sign_in_count: 1 };
    let user3 = User {
        email: "someone@example.com".to_owned(),
        username: "someusername123".to_owned(),
        active: true,
        sign_in_count: 1,
    };
    let _user4 = User {
        email: "another@example.com".to_owned(),
        username: "anotherusername567".to_owned(),
        ..user3
    };
    let _user5 = User {
        email: "another@example.com".to_owned(),
        username: "anotherusername567".to_owned(),
        active: user1.active,
        sign_in_count: user1.sign_in_count,
    };
    assert(_user4.active && _user4.sign_in_count == 1);
    assert(_user5.active && _user5.sign_in_count == 1);
}

/// A rectangle with whole-numbered sides.
#[derive(Debug)]
pub struct Rectangle {
    pub width: u32,
    pub height: u32,
}

impl Rectangle {
    /// The area: width times height.
    pub fn area(&self) -> (area: u32)
        requires
            self.width * self.height <= u32::MAX,
        ensures
            area == self.width * self.height,
    {
        self.width * self.height
    }

    /// The perimeter: twice the height and twice the width.
    pub fn perimeter(&self) -> (perimeter: u32)
        requires
            self.height * 2 + self.width * 2 <= u32::MAX,
        ensures
            perimeter == self.height * 2 + self.width * 2,
    {
        return self.height * 2 + self.width * 2;
    }

    /// Doubles both sides in place.
    pub fn double(&mut self)
        requires
            old(self).width * 2 <= u32::MAX,
            old(self).height * 2 <= u32::MAX,
        ensures
            final(self).width == old(self).width * 2,
            final(self).height == old(self).height * 2,
    {
        self.width = self.width * 2;
        self.height = self.height * 2;
    }

    /// Takes the rectangle by value: the caller has it no more.
    pub fn take_ownership(self) {
    }

    /// A rectangle with four equal sides.
    pub fn square(size: u32) -> (r: Rectangle)
        ensures
            r.width == size,
            r.height == size,
    {
        Rectangle { width: size, height: size }
    }

    /// The rectangle of width 10 and height 20.
    pub fn new() -> (r: Rectangle)
        ensures
            r.width == 10,
            r.height == 20,
    {
        Rectangle { width: 10, height: 20 }
    }

    /// The rectangle of the given width and height.
    pub fn new_with_params(width: u32, height: u32) -> (r: Rectangle)
        ensures
            r.width == width,
            r.height == height,
    {
        Rectangle { width, height }
    }
}

/// A square; its side is private to this module.
pub struct Square {
    side: u32,
}

/// A rhombus; of its fields only the side is public.
pub struct Rhombus {
    pub side: u32,
    acute_angle: i32,
}

impl Square {
    /// The length of the side.
    pub closed spec fn spec_side(&self) -> u32 {
        self.side
    }

    /// The length of the side.
    #[verifier::when_used_as_spec(spec_side)]
    pub fn side(&self) -> (side: u32)
        ensures
            side == self.side(),
    {
        self.side
    }

    /// The square of the given side.
    pub fn with_side(side: u32) -> (s: Square)
        ensures
            s.side() == side,
    {
        Square { side }
    }

    /// The square written as side times side, such as `10x10`.
    pub fn to_text(&self) -> (text: String)
        ensures
            text@ == decimal(self.side() as nat) + "x"@ + decimal(self.side() as nat),
    {
        let mut text = String::new();
        push_decimal(&mut text, self.side as usize);
        text.append("x");
        push_decimal(&mut text, self.side as usize);
        proof {
            assert(text@ =~= decimal(self.side as nat) + "x"@ + decimal(self.side as nat));
        }
        text
    }
}

impl Rhombus {
    /// The length of the side.
    pub closed spec fn side_length(&self) -> u32 {
        self.side
    }

    /// The length of the side, for other modules: a struct with a private
    /// field is opaque to them as a whole, so they cannot read the field in
    /// a contract.
    #[verifier::when_used_as_spec(side_length)]
    pub fn side(&self) -> (side: u32)
        ensures
            side == self.side_length(),
    {
        self.side
    }

    /// The acute angle.
    pub closed spec fn spec_acute_angle(&self) -> i32 {
        self.acute_angle
    }

    /// The acute angle.
    #[verifier::when_used_as_spec(spec_acute_angle)]
    pub fn acute_angle(&self) -> (angle: i32)
        ensures
            angle == self.acute_angle(),
    {
        self.acute_angle
    }
}

/// The rhombus with side and angle zero. Other modules cannot write a
/// `Rhombus` literal, as one field is private; they get their values here.
pub fn new_rhombus() -> (r: Rhombus)
    ensures
        r.side_length() == 0,
        r.acute_angle() == 0,
{
    return Rhombus { side: 0, acute_angle: 0 };
}

/// The square with side zero.
pub fn _new_square() -> (s: Square)
    ensures
        s.side() == 0,
{
    return Square { side: 0 };
}

/// A value with a copied field and an owned one.
pub struct Test {
    pub f: i32,
    pub s: Vec<i32>,
}

/// Takes a `Test` apart: the number is copied out, the vector is moved out.
pub fn ownstructs() -> (parts: (i32, Vec<i32>))
    ensures
        parts.0 == 32,
        parts.1@ == seq![1i32],
{
    let example = Test { f: 32, s: vec![1] };
    let new_f = example.f;
    let new_s = example.s;
    (new_f, new_s)
}

/// How a square of side ten is written.
pub fn struct_printing() -> (text: String)
    ensures
        text@ == decimal(10) + "x"@ + decimal(10),
{
    let squa = Square { side: 10 };
    squa.to_text()
}

/// The area and the perimeter of the rectangle that `Rectangle::new` makes.
pub fn struct_impl() -> (measures: (u32, u32))
    ensures
        measures == (200u32, 60u32),
{
    let r = Rectangle::new();
    let a = r.area();
    let p = Rectangle::perimeter(&r);
    (a, p)
}

} // verus!
