//! Traits: shared behaviour, default methods, trait objects, supertraits.

use vstd::prelude::*;
use vstd::string::StringExecFns;

verus! {

/// Something that can be summed up in a line of text.
pub trait Summary {
    /// The summary, as the contracts see it.
    spec fn summary(&self) -> Seq<char>;

    /// The summary.
    fn summarize(&self) -> (text: String)
        ensures
            text@ == self.summary(),
    ;

    /// The greeting of the type; `Hello` unless the type says otherwise.
    fn say_hello() -> (greeting: String) where Self: Sized
        default_ensures
            greeting@ == "Hello"@,
    {
        "Hello".to_owned()
    }
}

/// A newspaper article.
pub struct NewsArticle {
    pub headline: String,
    pub location: String,
    pub author: String,
    pub content: String,
}

/// A short message.
pub struct Tweet {
    pub username: String,
    pub content: String,
    pub reply: bool,
    pub retweet: bool,
}

impl Summary for NewsArticle {
    /// Headline, author and place.
    open spec fn summary(&self) -> Seq<char> {
        self.headline@ + ", by "@ + self.author@ + " ("@ + self.location@ + ")"@
    }

    fn summarize(&self) -> (text: String) {
        let mut text = self.headline.clone();
        text.append(", by ");
        text.append(self.author.as_str());
        text.append(" (");
        text.append(self.location.as_str());
        text.append(")");
        proof {
            assert(text@ =~= self.summary());
        }
        text
    }
}

impl Summary for Tweet {
    /// Author and message.
    open spec fn summary(&self) -> Seq<char> {
        self.username@ + ": "@ + self.content@
    }

    fn summarize(&self) -> (text: String) {
        let mut text = self.username.clone();
        text.append(": ");
        text.append(self.content.as_str());
        proof {
            assert(text@ =~= self.summary());
        }
        text
    }

    fn say_hello() -> (greeting: String)
        ensures
            greeting@ == "Yello!"@,
    {
        "Yello!".to_owned()
    }
}

/// The tweet that the examples use.
pub fn sample_tweet() -> (t: Tweet)
    ensures
        t.username@ == "Marco"@,
        t.content@ == "no way jose"@,
        !t.reply,
        !t.retweet,
{
    Tweet {
        username: "Marco".to_owned(),
        content: "no way jose".to_owned(),
        reply: false,
        retweet: false,
    }
}

/// The article that the examples use.
pub fn sample_article() -> (n: NewsArticle)
    ensures
        n.headline@ == "Wasps!"@,
        n.location@ == "Povo"@,
        n.author@ == "Patrignani"@,
        n.content@ == "there is a wasp in my attic"@,
{
    NewsArticle {
        headline: "Wasps!".to_owned(),
        location: "Povo".to_owned(),
        author: "Patrignani".to_owned(),
        content: "there is a wasp in my attic".to_owned(),
    }
}

/// Sums up a tweet and an article, and returns the greetings of the two
/// types, the article's first: the article has the default greeting, the
/// tweet its own.
pub fn traitexample() -> (greetings: (String, String))
    ensures
        greetings.0@ == "Hello"@,
        greetings.1@ == "Yello!"@,
{
    let t = sample_tweet();
    let n = sample_article();
    let tweet_summary = t.summarize();
    let article_summary = n.summarize();
    assert(tweet_summary@ == "Marco"@ + ": "@ + "no way jose"@);
    assert(article_summary@ == "Wasps!"@ + ", by "@ + "Patrignani"@ + " ("@ + "Povo"@ + ")"@);
    (NewsArticle::say_hello(), Tweet::say_hello())
}

/// The line announcing `item`, which may be of any type with a summary.
pub fn notify_fn(item: &impl Summary) -> (line: String)
    ensures
        line@ == "Breaking news! "@ + item.summary(),
{
    "Breaking news! ".to_owned().concat(item.summarize().as_str())
}

/// The second line announcing `item`; the same bound, written as a type
/// parameter.
pub fn notify_bound<T: Summary>(item: &T) -> (line: String)
    ensures
        line@ == "More Breaking news! "@ + item.summary(),
{
    "More Breaking news! ".to_owned().concat(item.summarize().as_str())
}

/// Takes two items, each of any type with a summary; the two types may
/// differ.
pub fn notify_fn2(item1: &impl Summary, item2: &impl Summary) {
}

/// Takes two items of one type with a summary.
pub fn notify_bound2<T: Summary>(item1: &T, item2: &T) {
}

/// A value known only as something with a summary: the tweet, boxed. The
/// caller cannot tell its type any more, but its summary is still that of
/// the tweet.
pub fn ret_trait() -> (boxed: Box<dyn Summary>)
    ensures
        boxed.summary() == "Marco"@ + ": "@ + "no way jose"@,
{
    let t = sample_tweet();
    let _n = sample_article();
    return Box::new(t);
}

/// A sheep.
pub struct Sheep {}

/// A cow.
pub struct Cow {}

/// An animal makes a noise.
pub trait Animal {
    /// The noise, as the contracts see it.
    spec fn sound(&self) -> Seq<char>;

    /// The noise.
    fn noise(&self) -> (noise: &'static str)
        ensures
            noise@ == self.sound(),
    ;
}

impl Animal for Sheep {
    open spec fn sound(&self) -> Seq<char> {
        "baaaaah!"@
    }

    fn noise(&self) -> (noise: &'static str) {
        "baaaaah!"
    }
}

impl Animal for Cow {
    open spec fn sound(&self) -> Seq<char> {
        "moooooo!"@
    }

    fn noise(&self) -> (noise: &'static str) {
        "moooooo!"
    }
}

/// The noise of the animal that a lot picks: the sheep's if `sheep` is
/// set, the cow's if not.
pub open spec fn picked_sound(sheep: bool) -> Seq<char> {
    if sheep {
        "baaaaah!"@
    } else {
        "moooooo!"@
    }
}

/// One of the two animals, as a trait object: a sheep if `sheep` is set, a
/// cow if not. The caller draws the lot. The caller cannot tell the type of
/// what it gets, but the noise that the animal makes is that of the animal
/// picked.
pub fn random_animal(sheep: bool) -> (animal: Box<dyn Animal>)
    ensures
        animal.sound() == picked_sound(sheep),
{
    if sheep {
        return Box::new(Sheep {  });
    }
    return Box::new(Cow {  });
}

/// The noise of the animal that `random_animal` picks.
pub fn random_noise(sheep: bool) -> (noise: &'static str)
    ensures
        noise@ == picked_sound(sheep),
{
    if sheep {
        Sheep {  }.noise()
    } else {
        Cow {  }.noise()
    }
}

/// A trait with an associated type, an associated constant, a constructor
/// and a method.
pub trait T {
    type Item;

    const C: i32;

    fn new() -> Self where Self: Sized;

    fn f(&self) -> Self::Item;
}

/// A type without fields.
pub struct ST;

impl T for ST {
    type Item = i32;

    const C: i32 = 9;

    fn new() -> Self {
        ST
    }

    fn f(&self) -> (item: i32)
        ensures
            item == 9,
    {
        Self::C
    }
}

/// In an impl, `Self` is the implementing type, `Self::Item` its
/// associated type and `Self::C` its constant: `f` gives nine.
pub fn test() {
    let st = ST::new();
    let n = st.f();
    assert(n == 9);
}

/// Somebody with a name.
pub trait Person {
    spec fn name_text(&self) -> Seq<char>;

    fn name(&self) -> (name: &String)
        ensures
            name@ == self.name_text(),
    ;
}

/// A person who attends a university.
pub trait Student: Person {
    spec fn university_text(&self) -> Seq<char>;

    fn university(&self) -> (university: String)
        ensures
            university@ == self.university_text(),
    ;
}

} // verus!
