//! Which units a run covers, and how that choice is read from command-line
//! arguments.

use vstd::prelude::*;
use crate::catalog::texts;
use crate::names::Name;

verus! {

/// The part of a catalog that a run covers.
#[derive(Debug, PartialEq, Eq)]
pub enum Selection {
    /// Every unit of every lesson.
    All,
    /// Every unit of the named lesson.
    Lesson(String),
    /// The named unit of the named lesson.
    Unit(String, String),
}

impl Clone for Selection {
    fn clone(&self) -> (copy: Self)
        ensures
            copy == *self,
    {
        match self {
            Selection::All => Selection::All,
            Selection::Lesson(lesson) => Selection::Lesson(lesson.clone()),
            Selection::Unit(lesson, unit) => Selection::Unit(lesson.clone(), unit.clone()),
        }
    }
}

/// A `Selection` as the contracts see it.
pub enum Scope {
    All,
    Lesson(Name),
    Unit(Name, Name),
}

impl View for Selection {
    type V = Scope;

    open spec fn view(&self) -> Scope {
        match *self {
            Selection::All => Scope::All,
            Selection::Lesson(lesson) => Scope::Lesson(lesson@),
            Selection::Unit(lesson, unit) => Scope::Unit(lesson@, unit@),
        }
    }
}

/// The arguments are none of the accepted forms.
#[derive(Clone, Copy, Debug, PartialEq, Eq, Structural)]
pub struct UsageError;

/// The text that tells a user which arguments are accepted.
pub open spec fn usage_text() -> Seq<char> {
    "usage: [--lesson <name> [--unit <name>]]"@
}

impl UsageError {
    /// A message for the user: the accepted forms of the arguments.
    pub fn message(&self) -> (text: String)
        ensures
            text@ == usage_text(),
    {
        "usage: [--lesson <name> [--unit <name>]]".to_owned()
    }
}

/// The flag that introduces a lesson name.
pub open spec fn lesson_flag() -> Name {
    "--lesson"@
}

/// The flag that introduces a unit name.
pub open spec fn unit_flag() -> Name {
    "--unit"@
}

/// The selection that a list of arguments stands for. Three forms are
/// accepted: no argument at all (everything), `--lesson <name>` (one
/// lesson), and `--lesson <name> --unit <name>` (one unit). Anything else is
/// refused.
pub open spec fn selection_of(args: Seq<Name>) -> Option<Scope> {
    if args.len() == 0 {
        Some(Scope::All)
    } else if args.len() == 2 && args[0] == lesson_flag() {
        Some(Scope::Lesson(args[1]))
    } else if args.len() == 4 && args[0] == lesson_flag() && args[2] == unit_flag() {
        Some(Scope::Unit(args[1], args[3]))
    } else {
        None
    }
}

/// Reads the selection from the arguments that follow the program's name.
pub fn parse_selection(args: &Vec<String>) -> (result: Result<Selection, UsageError>)
    ensures
        match result {
            Ok(selection) => selection_of(texts(args@)) == Some(selection@),
            Err(_) => selection_of(texts(args@)) is None,
        },
{
    let lesson_flag = "--lesson".to_owned();
    let unit_flag = "--unit".to_owned();
    if args.len() == 0 {
        Ok(Selection::All)
    } else if args.len() == 2 && args[0] == lesson_flag {
        Ok(Selection::Lesson(args[1].clone()))
    } else if args.len() == 4 && args[0] == lesson_flag && args[2] == unit_flag {
        Ok(Selection::Unit(args[1].clone(), args[3].clone()))
    } else {
        Err(UsageError)
    }
}

} // verus!
