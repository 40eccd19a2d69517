//! Supertraits, as the full files show them: only a student of computer
//! science has a user name, and the greeting gives it.

use vstd::prelude::*;
use vstd::string::StringExecFns;
use crate::lessons::traits::{
    notify_bound, notify_bound2, notify_fn, notify_fn2, sample_tweet, Person, Student,
};

verus! {

/// Somebody who writes programs.
pub trait Programmer {
    spec fn fav_language_text(&self) -> Seq<char>;

    fn fav_language(&self) -> (language: String)
        ensures
            language@ == self.fav_language_text(),
    ;
}

/// A student of computer science: a programmer and a student, with a user
/// name.
pub trait CompSciStudent: Programmer + Student {
    spec fn username_text(&self) -> Seq<char>;

    fn git_username(&self) -> (username: String)
        ensures
            username@ == self.username_text(),
    ;
}

/// The greeting of a student of computer science, as the contracts see it.
pub open spec fn greeting_text<S: CompSciStudent>(student: &S) -> Seq<char> {
    "My name is "@ + student.name_text() + " and I attend "@ + student.university_text()
        + ". My favorite language is "@ + student.fav_language_text() + ". My Git username is "@
        + student.username_text()
}

/// The greeting of a student of computer science.
pub fn comp_sci_student_greeting<S: CompSciStudent>(student: &S) -> (greeting: String)
    ensures
        greeting@ == greeting_text(student),
{
    let mut greeting = "My name is ".to_owned();
    greeting.append(student.name().as_str());
    greeting.append(" and I attend ");
    greeting.append(student.university().as_str());
    greeting.append(". My favorite language is ");
    greeting.append(student.fav_language().as_str());
    greeting.append(". My Git username is ");
    greeting.append(student.git_username().as_str());
    proof {
        assert(greeting@ =~= greeting_text(student));
    }
    greeting
}

/// A student of computer science, known by name.
pub struct Entity {
    pub nm: String,
}

impl Programmer for Entity {
    open spec fn fav_language_text(&self) -> Seq<char> {
        "Rust!"@
    }

    fn fav_language(&self) -> (language: String) {
        "Rust!".to_owned()
    }
}

impl Student for Entity {
    open spec fn university_text(&self) -> Seq<char> {
        "unitn"@
    }

    fn university(&self) -> (university: String) {
        "unitn".to_owned()
    }
}

impl Person for Entity {
    open spec fn name_text(&self) -> Seq<char> {
        self.nm@
    }

    fn name(&self) -> (name: &String) {
        &self.nm
    }
}

impl CompSciStudent for Entity {
    open spec fn username_text(&self) -> Seq<char> {
        "squera"@
    }

    fn git_username(&self) -> (username: String) {
        "squera".to_owned()
    }
}

/// The greeting of the `Entity` called `name`.
pub open spec fn entity_greeting(name: Seq<char>) -> Seq<char> {
    "My name is "@ + name + " and I attend "@ + "unitn"@ + ". My favorite language is "@ + "Rust!"@
        + ". My Git username is "@ + "squera"@
}

/// The greetings of two students of computer science, Marco and Pigna.
pub fn example_supertraits() -> (greetings: (String, String))
    ensures
        greetings.0@ == entity_greeting("marco"@),
        greetings.1@ == entity_greeting("pigna"@),
{
    let e = Entity { nm: "marco".to_owned() };
    let f = Entity { nm: "pigna".to_owned() };
    (comp_sci_student_greeting(&e), comp_sci_student_greeting(&f))
}

/// Announces a tweet in both ways and returns the two lines. The tweet is
/// then passed twice to each of the functions that take two items.
pub fn example_notify() -> (lines: (String, String))
    ensures
        lines.0@ == "Breaking news! "@ + ("Marco"@ + ": "@ + "no way jose"@),
        lines.1@ == "More Breaking news! "@ + ("Marco"@ + ": "@ + "no way jose"@),
{
    let t = sample_tweet();
    let first = notify_fn(&t);
    let second = notify_bound(&t);
    notify_fn2(&t, &t);
    notify_bound2(&t, &t);
    (first, second)
}

} // verus!
