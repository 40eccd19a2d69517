//! Objects, encapsulation, and what stands in for inheritance.

use vstd::prelude::*;
use crate::text::{push_signed, signed_decimal};

verus! {

/// An object: data with the functions that work on it.
pub struct Rectangle {
    width: u32,
    height: u32,
}

impl Rectangle {
    /// The width.
    pub closed spec fn width(&self) -> u32 {
        self.width
    }

    /// The height.
    pub closed spec fn height(&self) -> u32 {
        self.height
    }

    /// The rectangle of the given width and height.
    pub fn new(width: u32, height: u32) -> (r: Rectangle)
        ensures
            r.width() == width,
            r.height() == height,
    {
        Rectangle { width, height }
    }
}

/// The sum of `numbers`.
pub open spec fn sum_of(numbers: Seq<i32>) -> int
    decreases numbers.len(),
{
    if numbers.len() == 0 {
        0
    } else {
        sum_of(numbers.drop_last()) + numbers.last()
    }
}

/// A list of numbers that keeps its sum up to date. The fields are private:
/// only `add` changes the list, and `add` keeps the sum in step, so the sum
/// can be read at any time without adding up again. Whoever wants the
/// average divides the sum by the length.
pub struct AveragedCollection {
    list: Vec<i32>,
    total: i32,
}

impl AveragedCollection {
    /// The numbers held, in the order in which they were added.
    pub closed spec fn view(&self) -> Seq<i32> {
        self.list@
    }

    /// The sum that is kept beside the numbers.
    pub closed spec fn kept_total(&self) -> i32 {
        self.total
    }

    /// The sum that is kept and the numbers agree.
    pub open spec fn wf(&self) -> bool {
        self.kept_total() == sum_of(self@)
    }

    /// An empty collection.
    pub fn new() -> (collection: AveragedCollection)
        ensures
            collection.wf(),
            collection@.len() == 0,
            collection.kept_total() == 0,
    {
        AveragedCollection { list: Vec::new(), total: 0 }
    }

    /// Adds `value` at the end and brings the sum up to date. The sum has
    /// to be an `i32`.
    pub fn add(&mut self, value: i32)
        requires
            old(self).wf(),
            i32::MIN <= sum_of(old(self)@) + value <= i32::MAX,
        ensures
            final(self).wf(),
            final(self)@ == old(self)@.push(value),
            final(self).kept_total() == old(self).kept_total() + value,
    {
        self.list.push(value);
        self.total = self.total + value;
        proof {
            assert(self.list@.drop_last() == old(self).list@);
        }
    }

    /// The sum of the numbers held.
    pub fn total(&self) -> (total: i32)
        requires
            self.wf(),
        ensures
            total == self.kept_total(),
            total == sum_of(self@),
    {
        self.total
    }

    /// How many numbers are held.
    pub fn len(&self) -> (len: usize)
        ensures
            len == self@.len(),
    {
        self.list.len()
    }
}

/// Two vectors of numbers of different widths: their types differ, and
/// neither can stand where the other is expected.
#[allow(non_snake_case)]
pub fn wrong_Vecs() {
    let v1: Vec<u32> = vec![1u32, 1u32];
    let v2: Vec<u64> = vec![1u64, 1u64];
    assert(v1@.len() == v2@.len());
}

/// Something that can show itself as text.
pub trait Show {
    /// The text, as the contracts see it.
    spec fn shown(&self) -> Seq<char>;

    /// The text.
    fn show(&self) -> (text: String)
        ensures
            text@ == self.shown(),
    ;
}

impl Show for i32 {
    open spec fn shown(&self) -> Seq<char> {
        "four-byte signed "@ + signed_decimal(*self as int)
    }

    fn show(&self) -> (text: String) {
        let mut text = "four-byte signed ".to_owned();
        push_signed(&mut text, *self);
        text
    }
}

/// Something that quacks, or makes some such sound.
pub trait Quack {
    /// The sound, as the contracts see it.
    spec fn sound(&self) -> Seq<char>;

    /// The sound.
    fn quack(&self) -> (sound: &'static str)
        ensures
            sound@ == self.sound(),
    ;
}

/// A duck.
pub struct Duck();

/// A bird that may be a parrot.
pub struct RandomBird {
    pub is_a_parrot: bool,
}

impl Quack for Duck {
    open spec fn sound(&self) -> Seq<char> {
        "quack!"@
    }

    fn quack(&self) -> (sound: &'static str) {
        "quack!"
    }
}

impl Quack for RandomBird {
    open spec fn sound(&self) -> Seq<char> {
        if !self.is_a_parrot {
            "quack!"@
        } else {
            "squawk!"@
        }
    }

    fn quack(&self) -> (sound: &'static str) {
        if !self.is_a_parrot {
            "quack!"
        } else {
            "squawk!"
        }
    }
}

/// The sound of something known only as a quacker: which `quack` runs is
/// found when the call is made.
pub fn quack_ref(q: &dyn Quack) -> (sound: &'static str)
    ensures
        sound@ == q.sound(),
{
    q.quack()
}

/// The sound of a quacker whose type is a type parameter: which `quack`
/// runs is known when the program is compiled.
pub fn quack_trait<Q>(q: &Q) -> (sound: &'static str) where Q: Quack
    ensures
        sound@ == q.sound(),
{
    q.quack()
}

/// The sounds of a duck, of a bird that is no parrot and of a parrot, each
/// asked through a trait object; then those of the duck and the parrot
/// again, asked in both ways.
pub fn example_animals_oop() -> (sounds: Vec<&'static str>)
    ensures
        sounds@.map_values(|s: &'static str| s@) == seq![
            "quack!"@,
            "quack!"@,
            "squawk!"@,
            "quack!"@,
            "squawk!"@,
            "quack!"@,
            "squawk!"@,
        ],
{
    let duck1 = Duck();
    let duck2 = RandomBird { is_a_parrot: false };
    let parrot = RandomBird { is_a_parrot: true };
    let mut sounds: Vec<&'static str> = Vec::new();
    sounds.push(quack_ref(&duck1));
    sounds.push(quack_ref(&duck2));
    sounds.push(quack_ref(&parrot));
    sounds.push(quack_ref(&duck1));
    sounds.push(quack_ref(&parrot));
    sounds.push(quack_trait(&duck1));
    sounds.push(quack_trait(&parrot));
    proof {
        assert(sounds@.map_values(|s: &'static str| s@) =~= seq![
            "quack!"@,
            "quack!"@,
            "squawk!"@,
            "quack!"@,
            "squawk!"@,
            "quack!"@,
            "squawk!"@,
        ]);
    }
    sounds
}

/// Something that is somewhere.
pub trait Location {
    /// The place, as the contracts see it.
    spec fn place(&self) -> Seq<char>;

    /// The place.
    fn location(&self) -> (text: String)
        ensures
            text@ == self.place(),
    ;
}

/// Something that can show itself and is somewhere: a trait that only
/// combines two others.
pub trait ShowTell: Show + Location {
}

/// A thing with a name and a place.
#[derive(Debug)]
pub struct Foo {
    pub name: String,
    pub location: String,
}

impl Foo {
    /// The thing of the given name at the given place.
    pub fn new(name: &str, location: &str) -> (foo: Foo)
        ensures
            foo.name@ == name@,
            foo.location@ == location@,
    {
        Foo { name: name.to_owned(), location: location.to_owned() }
    }
}

impl Show for Foo {
    open spec fn shown(&self) -> Seq<char> {
        self.name@
    }

    fn show(&self) -> (text: String) {
        self.name.clone()
    }
}

impl Location for Foo {
    open spec fn place(&self) -> Seq<char> {
        self.location@
    }

    fn location(&self) -> (text: String) {
        self.location.clone()
    }
}

impl ShowTell for Foo {
}

/// Hands back what it was given, known as something that can show itself.
#[allow(non_snake_case)]
pub fn transferShow(x: &dyn Show) -> &dyn Show {
    x
}

/// Hands back what it was given, known as something that is somewhere.
#[allow(non_snake_case)]
pub fn transferLocation(x: &dyn Location) -> &dyn Location {
    x
}

} // verus!
