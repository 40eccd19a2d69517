//! Questions from class: a struct that borrows, and a trait whose method
//! takes a trait object.

use vstd::prelude::*;

verus! {

/// A value to be borrowed.
pub struct Inner {
    pub value: i32,
}

impl Inner {
    /// The inner value zero.
    pub fn new() -> (inner: Inner)
        ensures
            inner.value == 0,
    {
        Inner { value: 0 }
    }
}

/// A container that borrows its content for the lifetime `'a`.
pub struct Container<'a> {
    pub content: &'a Inner,
    pub data: i32,
}

impl<'a> Container<'a> {
    /// A container of `a` with data zero.
    pub fn new(a: &Inner) -> (container: Container)
        ensures
            container.content == a,
            container.data == 0,
    {
        Container { content: a, data: 0 }
    }

    /// Replaces the content. The new content has to live as long as the
    /// container's lifetime parameter says, however short the borrow of
    /// the container itself is.
    pub fn addinner(&mut self, a: &'a Inner)
        ensures
            final(self).content == a,
            final(self).data == old(self).data,
    {
        self.content = a;
    }
}

/// Replaces the content of `c`; the borrow of the container gets a
/// lifetime of its own, left to the compiler.
pub fn alsogoodmodder<'a>(c: &mut Container<'a>, a: &'a Inner)
    ensures
        final(c).content == a,
        final(c).data == old(c).data,
{
    c.addinner(a);
}

/// Replaces the content of `c`; the borrow of the container gets a
/// lifetime of its own, written out.
pub fn goodmodder<'a, 'b>(c: &'b mut Container<'a>, a: &'a Inner)
    ensures
        final(c).content == a,
        final(c).data == old(c).data,
{
    c.addinner(a);
}

/// A container is given the same content again, directly and through
/// `goodmodder`.
pub fn container_example() {
    let a = Inner::new();
    let mut b = Container::new(&a);
    b.addinner(&a);
    goodmodder(&mut b, &a);
    assert(b.content.value == 0 && b.data == 0);
}

/// A number.
pub struct S1 {
    pub f1: i32,
}

/// A flag.
pub struct S2 {
    pub f2: bool,
}

/// Something that has a number.
pub trait Numbered {
    /// The number, as the contracts see it.
    spec fn number(&self) -> i32;

    /// The number.
    fn get_i32(&self) -> (number: i32)
        ensures
            number == self.number(),
    ;
}

/// Something that has a number and can take another such thing's number
/// in. The number is read through the supertrait, so that the contract of
/// `add` can speak of the number of a trait object.
pub trait Addable: Numbered {
    /// The number that the value has after `amount` was added to it.
    spec fn sum_with(&self, amount: i32) -> int;

    /// Adds the number of `o`, which may be of any type that has a number.
    /// The sum has to be an `i32`.
    fn add(&mut self, o: &dyn Numbered)
        requires
            i32::MIN <= old(self).sum_with(o.number()) <= i32::MAX,
        ensures
            final(self).number() == old(self).sum_with(o.number()),
    ;
}

impl Numbered for S1 {
    open spec fn number(&self) -> i32 {
        self.f1
    }

    fn get_i32(&self) -> (number: i32) {
        self.f1
    }
}

impl Addable for S1 {
    /// A number grows by what is added.
    open spec fn sum_with(&self, amount: i32) -> int {
        self.f1 + amount
    }

    fn add(&mut self, o: &dyn Numbered) {
        self.f1 += o.get_i32();
    }
}

impl Numbered for S2 {
    /// A set flag counts as zero, a flag that is not set as one.
    open spec fn number(&self) -> i32 {
        if self.f2 {
            0
        } else {
            1
        }
    }

    fn get_i32(&self) -> (number: i32) {
        if self.f2 {
            0
        } else {
            1
        }
    }
}

impl Addable for S2 {
    /// A flag stays as it is, whatever is added.
    open spec fn sum_with(&self, amount: i32) -> int {
        self.number() as int
    }

    fn add(&mut self, o: &dyn Numbered) {
        let mut tmp = false;
        if o.get_i32() == 0 {
            tmp = true;
        };
        let _unused = self.f2 && tmp;
    }
}

/// The numbers of four values of the two types, read through trait
/// objects, and the number of the first after a flag was added to it.
pub fn testit() -> (numbers: (Vec<i32>, i32))
    ensures
        numbers.0@ == seq![0i32, 1i32, 0i32, 10i32],
        numbers.1 == 1,
{
    let mut s1 = S1 { f1: 0 };
    let s2 = S2 { f2: false };
    let s3 = S2 { f2: true };
    let s4 = S1 { f1: 10 };
    let mut numbers: Vec<i32> = Vec::new();
    numbers.push(number_of(&s1));
    numbers.push(number_of(&s2));
    numbers.push(number_of(&s3));
    numbers.push(number_of(&s4));
    s1.add(&s2);
    assert(numbers@ =~= seq![0i32, 1i32, 0i32, 10i32]);
    (numbers, s1.get_i32())
}

/// The number of a value known only as something that has one.
pub fn number_of(item: &dyn Numbered) -> (number: i32)
    ensures
        number == item.number(),
{
    item.get_i32()
}

} // verus!
