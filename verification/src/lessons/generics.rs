//! Generic types and functions.

use vstd::prelude::*;
use std::cmp::Ordering;
use vstd::std_specs::cmp::PartialOrdSpec;
use crate::std_specs::parse_u32;

verus! {

/// A pair of coordinates, each of a type of its own.
pub struct Point<T, U> {
    pub x: T,
    pub y: U,
}

impl<T, U> Point<T, U> {
    /// The first coordinate; a method of every `Point`.
    pub fn x(&self) -> (x: &T)
        ensures
            *x == self.x,
    {
        &self.x
    }
}

impl Point<i32, i32> {
    /// Zero; a method of the points with two `i32` coordinates only.
    pub fn xx(&self) -> (zero: i32)
        ensures
            zero == 0,
    {
        0
    }
}

impl<T> Point<i32, T> {
    /// Zero; a method of the points whose first coordinate is an `i32`.
    pub fn xxx(&self) -> (zero: i32)
        ensures
            zero == 0,
    {
        0
    }
}

/// A type argument written out: the text is parsed as a `u32` because the
/// call says so, not because of what is done with the result.
pub fn explicit_type() {
    let b = String::new();
    let trimmed = b.as_str().trim();
    match parse_u32(trimmed) {
        _ => (),
    }
}

/// A concrete type.
pub struct A;

/// A concrete type that wraps an `A`.
pub struct S(pub A);

/// A generic type that wraps a `T`.
pub struct SGen<T>(pub T);

/// Takes the concrete type `S`.
pub fn reg_fn(_s: S) {
}

/// Takes `SGen` with the type argument `A`.
pub fn gen_spec_t(_s: SGen<A>) {
}

/// Takes `SGen` with the type argument `i32`.
pub fn gen_spec_i32(_s: SGen<i32>) {
}

/// Takes `SGen` with any type argument.
pub fn generic<T>(_s: SGen<T>) {
}

/// Calls each of the four functions with a fitting argument; the generic
/// one twice, with the type argument written out and with it inferred.
pub fn generics_example() {
    reg_fn(S(A));
    gen_spec_t(SGen(A));
    gen_spec_i32(SGen(6));
    generic::<char>(SGen('a'));
    generic(SGen('c'));
}

/// The larger of two `i8`; the second when they are equal.
pub fn the_large_one_i8(x: i8, y: i8) -> (large: i8)
    ensures
        large == if x > y {
            x
        } else {
            y
        },
{
    if x > y {
        x
    } else {
        y
    }
}

/// The larger of two `i16`; the second when they are equal.
pub fn the_large_one_i16(x: i16, y: i16) -> (large: i16)
    ensures
        large == if x > y {
            x
        } else {
            y
        },
{
    if x > y {
        x
    } else {
        y
    }
}

/// The larger of two values of any type with an order: the first if it
/// compares greater than the second, else the second. What "greater" is,
/// the type says.
pub fn the_large_one_gen_correct<T: PartialOrd>(x: T, y: T) -> (large: T)
    ensures
        large == x || large == y,
        T::obeys_partial_cmp_spec() ==> large == if x.partial_cmp_spec(&y) == Some(Ordering::Greater) {
            x
        } else {
            y
        },
{
    if x > y {
        x
    } else {
        y
    }
}

/// Takes two values whose types meet bounds written in angle brackets.
pub fn some_function<T: Clone, U: Clone>(t: &T, u: &U) -> (zero: i32)
    ensures
        zero == 0,
{
    0
}

/// The same, with the bounds in a `where` clause.
pub fn some_function_where<T, U>(t: &T, u: &U) -> (zero: i32) where T: Clone, U: Clone
    ensures
        zero == 0,
{
    0
}

/// Two values of one type.
pub struct Pair<T> {
    pub x: T,
    pub y: T,
}

impl<T> Pair<T> {
    /// The pair of `x` and `y`.
    pub fn new(x: T, y: T) -> (pair: Self)
        ensures
            pair.x == x,
            pair.y == y,
    {
        Self { x, y }
    }
}

impl<T: PartialOrd> Pair<T> {
    /// Whether the first member is the one to show as the largest: it is
    /// when it compares greater than or equal to the second. Only pairs of
    /// a type with an order have this method.
    pub fn first_is_largest(&self) -> (first: bool)
        ensures
            T::obeys_partial_cmp_spec() ==> first == (self.x.partial_cmp_spec(&self.y) matches Some(
                Ordering::Greater
                | Ordering::Equal,
            )),
    {
        self.x >= self.y
    }
}

} // verus!
