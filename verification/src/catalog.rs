//! The catalog: lessons, their example units, and lookup by name.
//!
//! A catalog is an ordered list of lessons and a lesson is an ordered list of
//! example units. Order is registration order and is never changed. Names
//! identify: no two lessons of a catalog share a name, and no two units of a
//! lesson do.
//!
//! The catalog is generic in the type `A` of a unit's action. It stores and
//! hands out actions but never looks inside one; running them is the runner's
//! business.

use vstd::prelude::*;
use vstd::string::StringExecFns;
use crate::names::{
    first_repeat, is_first_repeat, lemma_first_repeat_is, lemma_first_repeat_none, lemma_has_first_repeat,
    lemma_position_is_first, lemma_push_fresh, position, repeats_earlier, Name,
};

verus! {

/// What a unit is declared to do when it runs.
#[derive(Clone, Copy, Debug, PartialEq, Eq, Structural)]
pub enum Expectation {
    /// The action is meant to complete normally.
    ExpectSuccess,
    /// The action is meant to fail; a failure reproduces the lesson's point.
    ExpectFailure,
}

/// One named demonstration: an action, the declared expectation, and an
/// optional note such as a quiz prompt.
#[derive(Debug)]
pub struct ExampleUnit<A> {
    pub name: String,
    pub action: A,
    pub expectation: Expectation,
    pub note: Option<String>,
}

/// Why a registration or a lookup was refused. Each variant carries the
/// lesson name it is about, and the unit name where a unit is at fault.
#[derive(Debug, PartialEq, Eq)]
pub enum CatalogError {
    /// A lesson of this name is already registered.
    DuplicateLesson(String),
    /// Two units offered for this lesson share this unit name.
    DuplicateUnit(String, String),
    /// No lesson of this name is registered.
    UnknownLesson(String),
    /// This lesson exists but has no unit of this name.
    UnknownUnit(String, String),
}

/// A `CatalogError` as the contracts see it, with names as character
/// sequences.
pub enum Refusal {
    DuplicateLesson(Name),
    DuplicateUnit(Name, Name),
    UnknownLesson(Name),
    UnknownUnit(Name, Name),
}

impl View for CatalogError {
    type V = Refusal;

    open spec fn view(&self) -> Refusal {
        match *self {
            CatalogError::DuplicateLesson(lesson) => Refusal::DuplicateLesson(lesson@),
            CatalogError::DuplicateUnit(lesson, unit) => Refusal::DuplicateUnit(lesson@, unit@),
            CatalogError::UnknownLesson(lesson) => Refusal::UnknownLesson(lesson@),
            CatalogError::UnknownUnit(lesson, unit) => Refusal::UnknownUnit(lesson@, unit@),
        }
    }
}

/// An ordered, named group of example units.
#[derive(Debug)]
pub struct Lesson<A> {
    name: String,
    units: Vec<ExampleUnit<A>>,
}

/// The registry of lessons.
#[derive(Debug)]
pub struct Catalog<A> {
    lessons: Vec<Lesson<A>>,
}

/// What a user is told about a refusal.
pub open spec fn refusal_text(refusal: Refusal) -> Seq<char> {
    match refusal {
        Refusal::DuplicateLesson(lesson) => "duplicate lesson: "@ + lesson,
        Refusal::DuplicateUnit(lesson, unit) => "duplicate unit in lesson "@ + lesson + ": "@ + unit,
        Refusal::UnknownLesson(lesson) => "unknown lesson: "@ + lesson,
        Refusal::UnknownUnit(lesson, unit) => "unknown unit in lesson "@ + lesson + ": "@ + unit,
    }
}

impl Clone for CatalogError {
    fn clone(&self) -> (copy: Self)
        ensures
            copy == *self,
    {
        match self {
            CatalogError::DuplicateLesson(lesson) => CatalogError::DuplicateLesson(lesson.clone()),
            CatalogError::DuplicateUnit(lesson, unit) => CatalogError::DuplicateUnit(
                lesson.clone(),
                unit.clone(),
            ),
            CatalogError::UnknownLesson(lesson) => CatalogError::UnknownLesson(lesson.clone()),
            CatalogError::UnknownUnit(lesson, unit) => CatalogError::UnknownUnit(lesson.clone(), unit.clone()),
        }
    }
}

impl CatalogError {
    /// A message for the user: what was refused, with the names at fault.
    pub fn message(&self) -> (text: String)
        ensures
            text@ == refusal_text(self@),
    {
        match self {
            CatalogError::DuplicateLesson(lesson) => "duplicate lesson: ".to_owned().concat(
                lesson.as_str(),
            ),
            CatalogError::DuplicateUnit(lesson, unit) => "duplicate unit in lesson ".to_owned().concat(
                lesson.as_str(),
            ).concat(": ").concat(unit.as_str()),
            CatalogError::UnknownLesson(lesson) => "unknown lesson: ".to_owned().concat(lesson.as_str()),
            CatalogError::UnknownUnit(lesson, unit) => "unknown unit in lesson ".to_owned().concat(
                lesson.as_str(),
            ).concat(": ").concat(unit.as_str()),
        }
    }
}

/// The names of `units`, in order.
pub open spec fn unit_names<A>(units: Seq<ExampleUnit<A>>) -> Seq<Name> {
    units.map_values(|u: ExampleUnit<A>| u.name@)
}

/// The names of `lessons`, in order.
pub open spec fn lesson_names<A>(lessons: Seq<Lesson<A>>) -> Seq<Name> {
    lessons.map_values(|l: Lesson<A>| l.name()@)
}

/// The character sequences of `strings`, in order.
pub open spec fn texts(strings: Seq<String>) -> Seq<Name> {
    strings.map_values(|s: String| s@)
}

/// The answer that a catalog holding `before` gives to the registration of
/// `units` under the name `lesson`: the lesson name is checked first, then
/// the unit names, and the first unit whose name an earlier one already has
/// is the one reported.
pub open spec fn registration<A>(before: Seq<Lesson<A>>, lesson: Name, units: Seq<ExampleUnit<A>>) -> Result<(), Refusal> {
    if lesson_names(before).contains(lesson) {
        Err(Refusal::DuplicateLesson(lesson))
    } else {
        match first_repeat(unit_names(units)) {
            Some(j) => Err(Refusal::DuplicateUnit(lesson, unit_names(units)[j])),
            None => Ok(()),
        }
    }
}

/// Where the first unit stands whose name an earlier unit already has.
pub fn find_repeated_unit<A>(units: &Vec<ExampleUnit<A>>) -> (found: Option<usize>)
    ensures
        match found {
            Some(j) => first_repeat(unit_names(units@)) == Some(j as int),
            None => first_repeat(unit_names(units@)) is None,
        },
{
    let ghost names = unit_names(units@);
    let mut j: usize = 0;
    while j < units.len()
        invariant
            j <= units.len(),
            names == unit_names(units@),
            forall|k: int| 0 <= k < j ==> !repeats_earlier(names, k),
        decreases units.len() - j,
    {
        let mut i: usize = 0;
        while i < j
            invariant
                i <= j < units.len(),
                names == unit_names(units@),
                forall|k: int| 0 <= k < j ==> !repeats_earlier(names, k),
                forall|k: int| 0 <= k < i ==> names[k] != names[j as int],
            decreases j - i,
        {
            if units[i].name == units[j].name {
                proof {
                    assert(names[i as int] == names[j as int]);
                    assert(repeats_earlier(names, j as int));
                    lemma_first_repeat_is(names, j as int);
                }
                return Some(j);
            }
            i += 1;
        }
        j += 1;
    }
    proof {
        assert forall|k: int| !is_first_repeat(names, k) by {}
    }
    None
}

impl<A> ExampleUnit<A> {
    /// A unit without a note.
    pub fn new(name: &str, action: A, expectation: Expectation) -> (unit: Self)
        ensures
            unit.name@ == name@,
            unit.action == action,
            unit.expectation == expectation,
            unit.note is None,
    {
        ExampleUnit { name: name.to_owned(), action, expectation, note: None }
    }

    /// The same unit carrying `note`; an earlier note is replaced.
    pub fn with_note(self, note: &str) -> (unit: Self)
        ensures
            unit.name == self.name,
            unit.action == self.action,
            unit.expectation == self.expectation,
            unit.note matches Some(text) && text@ == note@,
    {
        ExampleUnit {
            name: self.name,
            action: self.action,
            expectation: self.expectation,
            note: Some(note.to_owned()),
        }
    }
}

impl<A> Lesson<A> {
    /// The lesson's name.
    pub closed spec fn spec_name(&self) -> &String {
        &self.name
    }

    /// The lesson's units in registration order.
    pub closed spec fn spec_units(&self) -> &Vec<ExampleUnit<A>> {
        &self.units
    }

    /// A lesson is well formed when its units have pairwise different names.
    pub open spec fn wf(&self) -> bool {
        unit_names(self.units()@).no_duplicates()
    }

    /// The lesson's name.
    #[verifier::when_used_as_spec(spec_name)]
    pub fn name(&self) -> (name: &String)
        ensures
            name == self.name(),
    {
        &self.name
    }

    /// The lesson's units in registration order.
    #[verifier::when_used_as_spec(spec_units)]
    pub fn units(&self) -> (units: &Vec<ExampleUnit<A>>)
        ensures
            units == self.units(),
    {
        &self.units
    }

    /// The position of the unit called `unit`, if the lesson has one.
    pub fn unit_index(&self, unit: &str) -> (found: Option<usize>)
        ensures
            match found {
                Some(j) => j < self.units()@.len() && position(unit_names(self.units()@), unit@)
                    == Some(j as int),
                None => position(unit_names(self.units()@), unit@) is None,
            },
    {
        let wanted = unit.to_owned();
        let mut j: usize = 0;
        while j < self.units.len()
            invariant
                j <= self.units.len(),
                wanted@ == unit@,
                forall|k: int| 0 <= k < j ==> unit_names(self.units@)[k] != unit@,
            decreases self.units.len() - j,
        {
            if self.units[j].name == wanted {
                proof {
                    lemma_position_is_first(unit_names(self.units@), unit@, j as int);
                }
                return Some(j);
            }
            j += 1;
        }
        None
    }
}

impl<A> Catalog<A> {
    /// The lessons in registration order.
    pub closed spec fn spec_lessons(&self) -> &Vec<Lesson<A>> {
        &self.lessons
    }

    /// A catalog is well formed when its lessons have pairwise different
    /// names and each lesson is well formed.
    pub open spec fn wf(&self) -> bool {
        &&& lesson_names(self.lessons()@).no_duplicates()
        &&& forall|i: int| 0 <= i < self.lessons()@.len() ==> (#[trigger] self.lessons()@[i]).wf()
    }

    /// Where the unit `unit` of the lesson `lesson` stands, as the position of
    /// the lesson and the position of the unit within it; or why there is no
    /// such unit.
    pub open spec fn locate(&self, lesson: Name, unit: Name) -> Result<(int, int), Refusal> {
        match position(lesson_names(self.lessons()@), lesson) {
            None => Err(Refusal::UnknownLesson(lesson)),
            Some(i) => match position(unit_names(self.lessons()@[i].units()@), unit) {
                None => Err(Refusal::UnknownUnit(lesson, unit)),
                Some(j) => Ok((i, j)),
            },
        }
    }

    /// An empty catalog.
    pub fn new() -> (catalog: Self)
        ensures
            catalog.wf(),
            catalog.lessons()@.len() == 0,
    {
        Catalog { lessons: Vec::new() }
    }

    /// The lessons in registration order.
    #[verifier::when_used_as_spec(spec_lessons)]
    pub fn lessons(&self) -> (lessons: &Vec<Lesson<A>>)
        ensures
            lessons == self.lessons(),
    {
        &self.lessons
    }

    /// The position of the lesson called `lesson`, if there is one.
    pub fn lesson_index(&self, lesson: &str) -> (found: Option<usize>)
        ensures
            match found {
                Some(i) => i < self.lessons()@.len() && position(
                    lesson_names(self.lessons()@),
                    lesson@,
                ) == Some(i as int),
                None => position(lesson_names(self.lessons()@), lesson@) is None,
            },
    {
        let wanted = lesson.to_owned();
        let mut i: usize = 0;
        while i < self.lessons.len()
            invariant
                i <= self.lessons.len(),
                wanted@ == lesson@,
                forall|k: int| 0 <= k < i ==> lesson_names(self.lessons@)[k] != lesson@,
            decreases self.lessons.len() - i,
        {
            if self.lessons[i].name == wanted {
                proof {
                    lemma_position_is_first(lesson_names(self.lessons@), lesson@, i as int);
                }
                return Some(i);
            }
            i += 1;
        }
        None
    }

    /// The names of all lessons, in registration order.
    pub fn list_lessons(&self) -> (names: Vec<String>)
        ensures
            texts(names@) == lesson_names(self.lessons()@),
    {
        let mut names: Vec<String> = Vec::new();
        let mut i: usize = 0;
        while i < self.lessons.len()
            invariant
                i <= self.lessons.len(),
                names@.len() == i,
                forall|k: int| 0 <= k < i ==> names@[k]@ == self.lessons@[k].name@,
            decreases self.lessons.len() - i,
        {
            names.push(self.lessons[i].name.clone());
            i += 1;
        }
        proof {
            assert(texts(names@) =~= lesson_names(self.lessons@));
        }
        names
    }

    /// The names of the units of the lesson called `lesson`, in registration
    /// order; `UnknownLesson` when there is no such lesson.
    pub fn list_units(&self, lesson: &str) -> (result: Result<Vec<String>, CatalogError>)
        ensures
            match result {
                Ok(names) => position(lesson_names(self.lessons()@), lesson@) matches Some(i)
                    && texts(names@) == unit_names(self.lessons()@[i].units()@),
                Err(e) => position(lesson_names(self.lessons()@), lesson@) is None && e@
                    == Refusal::UnknownLesson(lesson@),
            },
    {
        match self.lesson_index(lesson) {
            None => Err(CatalogError::UnknownLesson(lesson.to_owned())),
            Some(i) => {
                let units = &self.lessons[i].units;
                let mut names: Vec<String> = Vec::new();
                let mut j: usize = 0;
                while j < units.len()
                    invariant
                        j <= units.len(),
                        names@.len() == j,
                        forall|k: int| 0 <= k < j ==> names@[k]@ == units@[k].name@,
                    decreases units.len() - j,
                {
                    names.push(units[j].name.clone());
                    j += 1;
                }
                proof {
                    assert(texts(names@) =~= unit_names(units@));
                }
                Ok(names)
            },
        }
    }

    /// The unit `unit` of the lesson `lesson`; `UnknownLesson` when there is
    /// no such lesson, `UnknownUnit` when the lesson has no such unit.
    pub fn find(&self, lesson: &str, unit: &str) -> (result: Result<&ExampleUnit<A>, CatalogError>)
        ensures
            match result {
                Ok(found) => self.locate(lesson@, unit@) matches Ok((i, j)) && *found
                    == self.lessons()@[i].units()@[j],
                Err(e) => self.locate(lesson@, unit@) == Err::<(int, int), Refusal>(e@),
            },
    {
        match self.lesson_index(lesson) {
            None => Err(CatalogError::UnknownLesson(lesson.to_owned())),
            Some(i) => match self.lessons[i].unit_index(unit) {
                None => Err(CatalogError::UnknownUnit(lesson.to_owned(), unit.to_owned())),
                Some(j) => Ok(&self.lessons[i].units[j]),
            },
        }
    }

    /// Appends a lesson called `lesson` that holds `units` in the given
    /// order.
    ///
    /// Refused with `DuplicateLesson` when a lesson of that name is already
    /// registered, and otherwise with `DuplicateUnit` when two of the units
    /// share a name; the error then names the first unit whose name an
    /// earlier one already has. A refused registration leaves the catalog as
    /// it was.
    pub fn register(&mut self, lesson: &str, units: Vec<ExampleUnit<A>>) -> (result: Result<
        (),
        CatalogError,
    >)
        requires
            old(self).wf(),
        ensures
            final(self).wf(),
            match result {
                Ok(_) => registration(old(self).lessons()@, lesson@, units@) is Ok,
                Err(e) => registration(old(self).lessons()@, lesson@, units@) == Err::<(), Refusal>(e@),
            },
            result is Err ==> *final(self) == *old(self),
            result is Ok ==> registered(old(self).lessons()@, final(self).lessons()@, lesson@, units@),
    {
        if self.lesson_index(lesson).is_some() {
            return Err(CatalogError::DuplicateLesson(lesson.to_owned()));
        }
        match find_repeated_unit(&units) {
            Some(j) => {
                let repeated = units[j].name.clone();
                Err(CatalogError::DuplicateUnit(lesson.to_owned(), repeated))
            },
            None => {
                let ghost before = self.lessons@;
                let added = Lesson { name: lesson.to_owned(), units };
                self.lessons.push(added);
                proof {
                    lemma_first_repeat_none(unit_names(units@));
                    assert(self.lessons@.drop_last() == before);
                    assert(lesson_names(self.lessons@) == lesson_names(before).push(lesson@));
                    lemma_push_fresh(lesson_names(before), lesson@);
                }
                Ok(())
            },
        }
    }
}

/// `after` is `before` with one more lesson at its end, called `lesson` and
/// holding `units`: what a successful registration makes of a catalog.
pub open spec fn registered<A>(
    before: Seq<Lesson<A>>,
    after: Seq<Lesson<A>>,
    lesson: Name,
    units: Seq<ExampleUnit<A>>,
) -> bool {
    &&& after.len() == before.len() + 1
    &&& after.drop_last() == before
    &&& after.last().name()@ == lesson
    &&& after.last().units()@ == units
}

/// A name can be registered once. After a lesson was registered, every
/// registration under the same name is refused as a duplicate lesson,
/// whatever units it offers; and since a refused registration changes
/// nothing, the catalog still holds the first lesson and no other of that
/// name.
pub proof fn lemma_second_registration_refused<A>(
    before: Seq<Lesson<A>>,
    after: Seq<Lesson<A>>,
    lesson: Name,
    first_units: Seq<ExampleUnit<A>>,
    second_units: Seq<ExampleUnit<A>>,
)
    requires
        registered(before, after, lesson, first_units),
    ensures
        registration(after, lesson, second_units) == Err::<(), Refusal>(Refusal::DuplicateLesson(lesson)),
{
    assert(lesson_names(after)[after.len() - 1] == lesson);
}

/// Units that share a name cannot be registered together. Where two of the
/// offered units have the same name the registration is refused: as a
/// duplicate lesson if the lesson name is taken, and else as a duplicate
/// unit, naming a unit whose name an earlier unit has.
pub proof fn lemma_shared_unit_name_refused<A>(
    before: Seq<Lesson<A>>,
    lesson: Name,
    units: Seq<ExampleUnit<A>>,
    i: int,
    j: int,
)
    requires
        0 <= i < j < units.len(),
        units[i].name@ == units[j].name@,
    ensures
        registration(before, lesson, units) is Err,
        !lesson_names(before).contains(lesson) ==> exists|at: int|
            0 <= at <= j && is_first_repeat(unit_names(units), at) && registration(before, lesson, units)
                == Err::<(), Refusal>(Refusal::DuplicateUnit(lesson, unit_names(units)[at])),
{
    let names = unit_names(units);
    assert(names[i] == names[j]);
    assert(repeats_earlier(names, j));
    lemma_has_first_repeat(names, j);
    let at = choose|at: int| 0 <= at <= j && is_first_repeat(names, at);
    lemma_first_repeat_is(names, at);
}

/// A lesson lists its units as they were registered. In the catalog that a
/// successful registration leaves, the lesson is found under its name, at
/// the end, and the names of its units are those of the units given, in the
/// order given.
pub proof fn lemma_registered_lesson_keeps_order<A>(
    before: Seq<Lesson<A>>,
    after: Seq<Lesson<A>>,
    lesson: Name,
    units: Seq<ExampleUnit<A>>,
)
    requires
        registration(before, lesson, units) is Ok,
        registered(before, after, lesson, units),
    ensures
        position(lesson_names(after), lesson) == Some(before.len() as int),
        unit_names(after[before.len() as int].units()@) == unit_names(units),
        lesson_names(after) == lesson_names(before).push(lesson),
{
    let names = lesson_names(after);
    assert(names =~= lesson_names(before).push(lesson));
    assert forall|k: int| 0 <= k < before.len() implies names[k] != lesson by {
        assert(lesson_names(before)[k] == names[k]);
        assert(lesson_names(before).contains(names[k]));
    }
    lemma_position_is_first(names, lesson, before.len() as int);
}

/// Registration only adds at the end: the lessons that were there keep
/// their places, their names and their units.
pub proof fn lemma_registration_keeps_earlier_lessons<A>(
    before: Seq<Lesson<A>>,
    after: Seq<Lesson<A>>,
    lesson: Name,
    units: Seq<ExampleUnit<A>>,
    i: int,
)
    requires
        registered(before, after, lesson, units),
        0 <= i < before.len(),
    ensures
        after[i] == before[i],
{
    assert(after.drop_last()[i] == after[i]);
}

} // verus!
