//! Closures: functions as values, and what they capture.

use vstd::prelude::*;
use vstd::string::StringExecFns;

verus! {

/// Adds one.
pub fn function(i: i32) -> (next: i32)
    requires
        i < i32::MAX,
    ensures
        next == i + 1,
{
    i + 1
}

/// Calls `f` on one and drops the result: a closure and a named function
/// are passed in the same way.
pub fn call_me<F: Fn(i32) -> i32>(f: F)
    requires
        call_requires(f, (1i32,)),
    ensures
        exists|r: i32| call_ensures(f, (1i32,), r),
{
    let _r = f(1);
}

/// What a closure that adds one, and a closure that returns one, give.
pub fn closuresexample() -> (values: (i32, i32, i32, i32))
    ensures
        values == (2i32, 2i32, 2i32, 1i32),
{
    let closure_annotated = |i: i32| -> (next: i32)
        requires
            i < i32::MAX,
        ensures
            next == i + 1,
        { i + 1 };
    let closure_inferred = |i: i32| -> (next: i32)
        requires
            i < i32::MAX,
        ensures
            next == i + 1,
        { i + 1 };
    let i: i32 = 1;
    let one = || -> (one: i32)
        ensures
            one == 1,
        { 1 };
    let by_function = function(i);
    let by_annotated = closure_annotated(i);
    let by_inferred = closure_inferred(i);
    call_me(closure_annotated);
    call_me(function);
    (by_function, by_annotated, by_inferred, one())
}

/// Calls a closure that may be called once only.
#[allow(non_snake_case)]
pub fn apply_FnOnce<F>(f: F) where F: FnOnce()
    requires
        call_requires(f, ()),
    ensures
        call_ensures(f, (), ()),
{
    f();
}

/// Calls a closure that may be called any number of times.
#[allow(non_snake_case)]
pub fn apply_Fn<F>(f: F) where F: Fn()
    requires
        call_requires(f, ()),
    ensures
        call_ensures(f, (), ()),
{
    f();
}

/// Calls a closure that may change what it captured when it is called.
#[allow(non_snake_case)]
pub fn apply_FnMut<F>(mut f: F) where F: FnMut()
    requires
        call_requires(f, ()),
    ensures
        call_ensures(f, (), ()),
{
    f();
}

/// What `f` makes of three.
pub fn apply_to_3<F>(f: F) -> (result: i32) where F: Fn(i32) -> i32
    requires
        call_requires(f, (3i32,)),
    ensures
        call_ensures(f, (3i32,), result),
{
    f(3)
}

/// Three doubled, by a closure handed to `apply_to_3`.
pub fn fntypes() -> (doubled: i32)
    ensures
        doubled == 6,
{
    let double = |x: i32| -> (twice: i32)
        requires
            -1000 < x < 1000,
        ensures
            twice == 2 * x,
        { 2 * x };
    apply_to_3(double)
}

/// The text that the closures of this lesson say of themselves.
pub open spec fn this_is_a(kind: Seq<char>) -> Seq<char> {
    "This is a: "@ + kind
}

/// A closure that can be called through a shared reference, and says so.
/// It owns the text it captured.
fn create_fn() -> (f: impl Fn() -> String)
    ensures
        call_requires(f, ()),
        forall|said: String| call_ensures(f, (), said) ==> said@ == this_is_a("Fn"@),
{
    let text = "Fn".to_owned();
    move || -> (said: String)
        ensures
            said@ == this_is_a("Fn"@),
        { "This is a: ".to_owned().concat(text.as_str()) }
}

/// A closure that is handed out as one that may change what it captured,
/// and says so. It owns the text it captured.
fn create_fnmut() -> (f: impl FnMut() -> String)
    ensures
        call_requires(f, ()),
        forall|said: String| call_ensures(f, (), said) ==> said@ == this_is_a("FnMut"@),
{
    let text = "FnMut".to_owned();
    move || -> (said: String)
        ensures
            said@ == this_is_a("FnMut"@),
        { "This is a: ".to_owned().concat(text.as_str()) }
}

/// A closure that is handed out as one that may be called once only, and
/// says so. It owns the text it captured.
fn create_fnonce() -> (f: impl FnOnce() -> String)
    ensures
        call_requires(f, ()),
        forall|said: String| call_ensures(f, (), said) ==> said@ == this_is_a("FnOnce"@),
{
    let text = "FnOnce".to_owned();
    move || -> (said: String)
        ensures
            said@ == this_is_a("FnOnce"@),
        { "This is a: ".to_owned().concat(text.as_str()) }
}

/// What the closures of `create_fn`, `create_fnmut` and `create_fnonce`
/// say when called.
pub fn closures_output() -> (said: (String, String, String))
    ensures
        said.0@ == this_is_a("Fn"@),
        said.1@ == this_is_a("FnMut"@),
        said.2@ == this_is_a("FnOnce"@),
{
    let fn_plain = create_fn();
    let mut fn_mut = create_fnmut();
    let fn_once = create_fnonce();
    (fn_plain(), fn_mut(), fn_once())
}

} // verus!
