//! Values on the heap: boxes, recursive types, smart pointers, and a
//! tracker that reports through a trait.

use vstd::prelude::*;
use vstd::string::StringExecFns;
use std::ops::Deref;

verus! {

/// A list of numbers: empty, or a number followed by a list. The rest of
/// the list is boxed, so that a list has a size.
pub enum List {
    Cons(i32, Box<List>),
    Nil,
}

/// The numbers of a list, first to last.
pub open spec fn elements(list: List) -> Seq<i32>
    decreases list,
{
    match list {
        List::Nil => Seq::empty(),
        List::Cons(head, tail) => seq![head] + elements(*tail),
    }
}

/// The list of one, two and three.
pub fn one_two_three() -> (list: List)
    ensures
        elements(list) == seq![1i32, 2i32, 3i32],
{
    let list = List::Cons(1, Box::new(List::Cons(2, Box::new(List::Cons(3, Box::new(List::Nil))))));
    proof {
        reveal_with_fuel(elements, 4);
        assert(elements(list) =~= seq![1i32, 2i32, 3i32]);
    }
    list
}

/// Builds a list of three numbers.
pub fn recursivetypes() {
    let _list = one_two_three();
}

/// A box of one's own: a tuple struct around a value.
pub struct MyBox<T>(pub T);

impl<T> MyBox<T> {
    /// The box around `x`.
    pub fn new(x: T) -> (boxed: MyBox<T>)
        ensures
            boxed.0 == x,
    {
        MyBox(x)
    }
}

impl<T> Deref for MyBox<T> {
    type Target = T;

    /// What the star operator gives: the value inside.
    fn deref(&self) -> (inside: &T)
        ensures
            *inside == self.0,
    {
        &self.0
    }
}

/// A number read directly, through a `Box`, and through a `MyBox`: the
/// star operator works on each.
pub fn example_smart1() -> (values: (i32, i32, i32))
    ensures
        values == (5i32, 5i32, 5i32),
{
    let x: i32 = 5;
    let y = Box::new(x);
    let z = MyBox::new(x);
    (x, *y, *z)
}

/// The greeting for `name`.
pub fn hello(name: &str) -> (greeting: String)
    ensures
        greeting@ == "Hello, "@ + name@ + "!"@,
{
    "Hello, ".to_owned().concat(name).concat("!")
}

/// Greets the text inside a `MyBox`: the reference to the box is turned
/// into a reference to the string inside, and that into a string slice.
pub fn implitictderef() -> (greeting: String)
    ensures
        greeting@ == "Hello, "@ + "Rust"@ + "!"@,
{
    let m = MyBox::new("Rust".to_owned());
    hello(&m)
}

/// A reference counter written by hand: a value with the number of its
/// owners beside it.
pub struct NaiveRc<T> {
    pub reference_count: usize,
    pub inner_value: T,
}

impl<T: Copy> Clone for NaiveRc<T> {
    /// A copy with the same count: through a shared reference the count of
    /// the value that is cloned cannot be raised.
    fn clone(&self) -> (copy: Self)
        ensures
            copy.reference_count == self.reference_count,
            copy.inner_value == self.inner_value,
    {
        return NaiveRc { reference_count: self.reference_count, inner_value: self.inner_value };
    }
}

impl<T: Copy> NaiveRc<T> {
    /// Raises the count and returns a copy that has the raised count.
    pub fn clone_mut(&mut self) -> (copy: Self)
        requires
            old(self).reference_count < usize::MAX,
        ensures
            final(self).reference_count == old(self).reference_count + 1,
            final(self).inner_value == old(self).inner_value,
            copy.reference_count == old(self).reference_count + 1,
            copy.inner_value == old(self).inner_value,
    {
        self.reference_count += 1;
        return NaiveRc { reference_count: self.reference_count, inner_value: self.inner_value };
    }
}

/// Something that messages can be sent through.
pub trait Messenger {
    fn send(&self, msg: &str);
}

/// How much of a quota is used up, as far as it is worth a message.
#[derive(Clone, Copy, Debug, PartialEq, Eq, Structural)]
pub enum QuotaLevel {
    /// Less than three quarters: no message.
    Fine,
    /// Three quarters or more.
    Warning,
    /// Nine tenths or more.
    Urgent,
    /// All of it, or more.
    Over,
}

/// The level that `value` has reached of the quota `max`. A quota of zero
/// is used up by any value above zero; as long as nothing is used of it, no
/// level is reached.
pub open spec fn quota_level(value: nat, max: nat) -> QuotaLevel {
    if max == 0 && value == 0 {
        QuotaLevel::Fine
    } else if value >= max {
        QuotaLevel::Over
    } else if value * 10 >= max * 9 {
        QuotaLevel::Urgent
    } else if value * 4 >= max * 3 {
        QuotaLevel::Warning
    } else {
        QuotaLevel::Fine
    }
}

/// The message for a level; none for `Fine`.
pub open spec fn quota_text(level: QuotaLevel) -> Option<Seq<char>> {
    match level {
        QuotaLevel::Fine => None,
        QuotaLevel::Warning => Some("Warning: You've used up over 75% of your quota!"@),
        QuotaLevel::Urgent => Some("Urgent warning: You've used up over 90% of your quota!"@),
        QuotaLevel::Over => Some("Error: You are over your quota!"@),
    }
}

/// The level that `value` has reached of the quota `max`.
pub fn level_of(value: usize, max: usize) -> (level: QuotaLevel)
    ensures
        level == quota_level(value as nat, max as nat),
{
    let used: u128 = value as u128;
    let quota: u128 = max as u128;
    if max == 0 && value == 0 {
        QuotaLevel::Fine
    } else if value >= max {
        QuotaLevel::Over
    } else if used * 10 >= quota * 9 {
        QuotaLevel::Urgent
    } else if used * 4 >= quota * 3 {
        QuotaLevel::Warning
    } else {
        QuotaLevel::Fine
    }
}

/// The message to send when `value` is set against the quota `max`, if one
/// is due.
pub fn quota_message(value: usize, max: usize) -> (message: Option<&'static str>)
    ensures
        match message {
            Some(text) => quota_text(quota_level(value as nat, max as nat)) == Some(text@),
            None => quota_text(quota_level(value as nat, max as nat)) is None,
        },
{
    match level_of(value, max) {
        QuotaLevel::Fine => None,
        QuotaLevel::Warning => Some("Warning: You've used up over 75% of your quota!"),
        QuotaLevel::Urgent => Some("Urgent warning: You've used up over 90% of your quota!"),
        QuotaLevel::Over => Some("Error: You are over your quota!"),
    }
}

/// Tracks a value against a maximum and sends a message through its
/// messenger when the value comes close to the maximum or passes it.
pub struct LimitTracker<'a, T: Messenger> {
    messenger: &'a T,
    value: usize,
    max: usize,
}

impl<'a, T> LimitTracker<'a, T> where T: Messenger {
    /// The value last set.
    pub closed spec fn value(&self) -> usize {
        self.value
    }

    /// The maximum.
    pub closed spec fn max(&self) -> usize {
        self.max
    }

    /// The messenger.
    pub closed spec fn messenger(&self) -> &T {
        self.messenger
    }

    /// A tracker with the value zero.
    pub fn new(messenger: &T, max: usize) -> (tracker: LimitTracker<T>)
        ensures
            tracker.value() == 0,
            tracker.max() == max,
            tracker.messenger() == messenger,
    {
        LimitTracker { messenger, value: 0, max }
    }

    /// Sets the value, sends the message that is due for it through the
    /// messenger, and returns the message that it handed to `send`; none if
    /// none was due and `send` was not called.
    pub fn set_value(&mut self, value: usize) -> (sent: Option<&'static str>)
        ensures
            final(self).value() == value,
            final(self).max() == old(self).max(),
            final(self).messenger() == old(self).messenger(),
            match sent {
                Some(text) => quota_text(quota_level(value as nat, old(self).max() as nat)) == Some(text@),
                None => quota_text(quota_level(value as nat, old(self).max() as nat)) is None,
            },
    {
        self.value = value;
        match quota_message(self.value, self.max) {
            Some(text) => {
                self.messenger.send(text);
                Some(text)
            },
            None => None,
        }
    }
}

/// A messenger for tests that is meant to keep the messages it is told to
/// send. It cannot: `send` has its messenger by shared reference, and a
/// vector behind a shared reference cannot be pushed to. So it keeps
/// nothing.
pub struct MockMessenger {
    pub sent_messages: Vec<String>,
}

impl MockMessenger {
    /// A messenger that has kept no message.
    pub fn new() -> (messenger: MockMessenger)
        ensures
            messenger.sent_messages@.len() == 0,
    {
        MockMessenger { sent_messages: vec![] }
    }
}

impl Messenger for MockMessenger {
    fn send(&self, message: &str) {
    }
}

/// Sets a value of 80 against a maximum of 100, which is worth a warning.
/// The messenger is told to send it and keeps nothing, as it cannot.
pub fn it_sends_an_over_75_percent_warning_message() {
    let mock_messenger = MockMessenger::new();
    let mut limit_tracker = LimitTracker::new(&mock_messenger, 100);
    let sent = limit_tracker.set_value(80);
    assert(quota_level(80, 100) == QuotaLevel::Warning);
    assert(sent matches Some(text) && text@ == "Warning: You've used up over 75% of your quota!"@);
    assert(mock_messenger.sent_messages@.len() == 0);
}

} // verus!
