//! The runner: executes a selection of units and records what happened.
//!
//! The runner never looks inside an action. It is handed an executor, a
//! function from an action to the outcome of running it, and asks of it only
//! that it accepts the actions of the selected units. Whatever the executor
//! reports for one unit is recorded for that unit and the run goes on with
//! the next: one failing demonstration does not end the batch.
//!
//! Because the executor is only known to accept the selected actions, a
//! selection that names an unknown lesson or unit is refused before the
//! executor can be called at all.

use vstd::prelude::*;
use crate::catalog::{lesson_names, unit_names, Catalog, CatalogError, ExampleUnit, Expectation, Lesson, Refusal};
use crate::names::{lemma_position_found, position, Name};
use crate::selection::{Scope, Selection};

verus! {

/// What was observed when a unit's action ran.
#[derive(Debug, PartialEq, Eq)]
pub enum Outcome {
    /// The action completed normally.
    Succeeded,
    /// The action failed, for the reason given.
    Failed(String),
}

/// The record of one executed unit.
#[derive(Debug, PartialEq, Eq)]
pub struct RunResult {
    pub lesson: String,
    pub unit: String,
    pub outcome: Outcome,
    pub matched: bool,
}

impl Clone for Outcome {
    fn clone(&self) -> (copy: Self)
        ensures
            copy == *self,
    {
        match self {
            Outcome::Succeeded => Outcome::Succeeded,
            Outcome::Failed(reason) => Outcome::Failed(reason.clone()),
        }
    }
}

impl Clone for RunResult {
    fn clone(&self) -> (copy: Self)
        ensures
            copy == *self,
    {
        RunResult {
            lesson: self.lesson.clone(),
            unit: self.unit.clone(),
            outcome: self.outcome.clone(),
            matched: self.matched,
        }
    }
}

/// How far a run has come.
#[derive(Clone, Copy, Debug, PartialEq, Eq, Structural)]
pub enum RunState {
    /// Units are selected and none has run.
    NotStarted,
    /// Some selected units have run and some have not.
    Running,
    /// Every selected unit has run.
    Completed,
}

/// An outcome meets an expectation when a unit declared to succeed
/// succeeded, or a unit declared to fail failed.
pub open spec fn meets(expectation: Expectation, outcome: Outcome) -> bool {
    match expectation {
        Expectation::ExpectSuccess => outcome is Succeeded,
        Expectation::ExpectFailure => outcome is Failed,
    }
}

/// Whether `outcome` is what `expectation` declares.
pub fn expectation_met(expectation: Expectation, outcome: &Outcome) -> (matched: bool)
    ensures
        matched == meets(expectation, *outcome),
{
    match expectation {
        Expectation::ExpectSuccess => match outcome {
            Outcome::Succeeded => true,
            Outcome::Failed(_) => false,
        },
        Expectation::ExpectFailure => match outcome {
            Outcome::Succeeded => false,
            Outcome::Failed(_) => true,
        },
    }
}

/// The positions of the `unit_count` units of the lesson at position
/// `lesson`, in order. A position is a pair: the lesson's place in the
/// catalog and the unit's place in the lesson.
pub open spec fn lesson_plan(lesson: int, unit_count: nat) -> Seq<(int, int)> {
    Seq::new(unit_count, |j: int| (lesson, j))
}

/// The positions of all units of `lessons`: lesson after lesson, and within
/// a lesson unit after unit.
pub open spec fn full_plan<A>(lessons: Seq<Lesson<A>>) -> Seq<(int, int)>
    decreases lessons.len(),
{
    if lessons.len() == 0 {
        Seq::empty()
    } else {
        full_plan(lessons.drop_last()) + lesson_plan(
            lessons.len() - 1,
            lessons.last().units()@.len(),
        )
    }
}

/// The unit at `at`.
pub open spec fn unit_at<A>(lessons: Seq<Lesson<A>>, at: (int, int)) -> ExampleUnit<A> {
    lessons[at.0].units()@[at.1]
}

/// `at` is the position of a unit of `lessons`.
pub open spec fn in_catalog<A>(lessons: Seq<Lesson<A>>, at: (int, int)) -> bool {
    0 <= at.0 < lessons.len() && 0 <= at.1 < lessons[at.0].units()@.len()
}

/// The positions that `scope` selects in `lessons`, in the order in which
/// they run; or why the selection is refused.
pub open spec fn plan_of<A>(lessons: Seq<Lesson<A>>, scope: Scope) -> Result<Seq<(int, int)>, Refusal> {
    match scope {
        Scope::All => Ok(full_plan(lessons)),
        Scope::Lesson(lesson) => match position(lesson_names(lessons), lesson) {
            Some(i) => Ok(lesson_plan(i, lessons[i].units()@.len())),
            None => Err(Refusal::UnknownLesson(lesson)),
        },
        Scope::Unit(lesson, unit) => match position(lesson_names(lessons), lesson) {
            None => Err(Refusal::UnknownLesson(lesson)),
            Some(i) => match position(unit_names(lessons[i].units()@), unit) {
                None => Err(Refusal::UnknownUnit(lesson, unit)),
                Some(j) => Ok(seq![(i, j)]),
            },
        },
    }
}

/// `result` names the unit at `at` and says truthfully whether its outcome
/// is what the unit declares.
pub open spec fn describes<A>(lessons: Seq<Lesson<A>>, at: (int, int), result: RunResult) -> bool {
    &&& result.lesson@ == lessons[at.0].name()@
    &&& result.unit@ == unit_at(lessons, at).name@
    &&& result.matched == meets(unit_at(lessons, at).expectation, result.outcome)
}

/// `exec` may be called on the action of every unit in `plan`.
pub open spec fn accepts<A, F: Fn(&A) -> Outcome>(exec: F, lessons: Seq<Lesson<A>>, plan: Seq<(int, int)>) -> bool {
    forall|k: int| 0 <= k < plan.len() ==> call_requires(exec, (&unit_at(lessons, #[trigger] plan[k]).action,))
}

/// `results` holds, for each position of `plan` in order, a result that
/// describes the unit there.
pub open spec fn follows<A>(results: Seq<RunResult>, lessons: Seq<Lesson<A>>, plan: Seq<(int, int)>) -> bool {
    &&& results.len() == plan.len()
    &&& forall|k: int| 0 <= k < plan.len() ==> describes(lessons, plan[k], #[trigger] results[k])
}

/// `results` is what running `plan` with `exec` may give: one result for
/// each position, in the plan's order, each describing its unit and holding
/// an outcome that `exec` can report for that unit's action.
pub open spec fn is_run_of<A, F: Fn(&A) -> Outcome>(
    results: Seq<RunResult>,
    exec: F,
    lessons: Seq<Lesson<A>>,
    plan: Seq<(int, int)>,
) -> bool {
    &&& follows(results, lessons, plan)
    &&& forall|k: int|
        0 <= k < plan.len() ==> call_ensures(
            exec,
            (&unit_at(lessons, plan[k]).action,),
            (#[trigger] results[k]).outcome,
        )
}

/// Positions held as machine integers, seen as positions.
pub open spec fn positions(plan: Seq<(usize, usize)>) -> Seq<(int, int)> {
    plan.map_values(|at: (usize, usize)| (at.0 as int, at.1 as int))
}

/// The positions of all units of the catalog, in running order.
fn plan_all<A>(catalog: &Catalog<A>) -> (plan: Vec<(usize, usize)>)
    ensures
        positions(plan@) == full_plan(catalog.lessons()@),
        forall|k: int| 0 <= k < plan@.len() ==> in_catalog(catalog.lessons()@, #[trigger] positions(plan@)[k]),
{
    let lessons = catalog.lessons();
    let mut plan: Vec<(usize, usize)> = Vec::new();
    let mut i: usize = 0;
    proof {
        assert(lessons@.take(0) == Seq::<Lesson<A>>::empty());
        assert(positions(plan@) == full_plan(lessons@.take(0)));
    }
    while i < lessons.len()
        invariant
            i <= lessons.len(),
            positions(plan@) == full_plan(lessons@.take(i as int)),
            forall|k: int| 0 <= k < plan@.len() ==> in_catalog(lessons@, #[trigger] positions(plan@)[k]),
        decreases lessons.len() - i,
    {
        let count = lessons[i].units().len();
        let ghost before = positions(plan@);
        let mut j: usize = 0;
        while j < count
            invariant
                i < lessons.len(),
                count == lessons@[i as int].units()@.len(),
                j <= count,
                before == full_plan(lessons@.take(i as int)),
                positions(plan@) == before + lesson_plan(i as int, j as nat),
                forall|k: int| 0 <= k < plan@.len() ==> in_catalog(lessons@, #[trigger] positions(plan@)[k]),
            decreases count - j,
        {
            let ghost earlier = positions(plan@);
            plan.push((i, j));
            proof {
                assert(positions(plan@) == earlier.push((i as int, j as int)));
                assert(lesson_plan(i as int, (j + 1) as nat) == lesson_plan(i as int, j as nat).push(
                    (i as int, j as int),
                ));
                assert(positions(plan@) == before + lesson_plan(i as int, (j + 1) as nat));
            }
            j += 1;
        }
        proof {
            let longer = lessons@.take(i + 1);
            assert(longer.drop_last() == lessons@.take(i as int));
            assert(longer.last() == lessons@[i as int]);
        }
        i += 1;
    }
    proof {
        assert(lessons@.take(i as int) == lessons@);
    }
    plan
}

/// The positions of the units of the lesson at position `i`, in order.
fn plan_lesson<A>(catalog: &Catalog<A>, i: usize) -> (plan: Vec<(usize, usize)>)
    requires
        i < catalog.lessons()@.len(),
    ensures
        positions(plan@) == lesson_plan(i as int, catalog.lessons()@[i as int].units()@.len()),
{
    let count = catalog.lessons()[i].units().len();
    let mut plan: Vec<(usize, usize)> = Vec::new();
    let mut j: usize = 0;
    while j < count
        invariant
            j <= count,
            positions(plan@) == lesson_plan(i as int, j as nat),
        decreases count - j,
    {
        let ghost earlier = positions(plan@);
        plan.push((i, j));
        proof {
            assert(positions(plan@) == earlier.push((i as int, j as int)));
            assert(lesson_plan(i as int, (j + 1) as nat) == lesson_plan(i as int, j as nat).push(
                (i as int, j as int),
            ));
        }
        j += 1;
    }
    plan
}

/// A run over part of a catalog: the positions selected, and the results of
/// those that have run so far.
pub struct Runner<'a, A> {
    catalog: &'a Catalog<A>,
    plan: Vec<(usize, usize)>,
    results: Vec<RunResult>,
}

impl<'a, A> Runner<'a, A> {
    /// The lessons of the catalog that the run is over.
    pub closed spec fn lessons(&self) -> Seq<Lesson<A>> {
        self.catalog.lessons()@
    }

    /// The selected positions, in running order.
    pub closed spec fn plan(&self) -> Seq<(int, int)> {
        positions(self.plan@)
    }

    /// The results recorded so far, in running order.
    pub closed spec fn results(&self) -> Seq<RunResult> {
        self.results@
    }

    /// A run is well formed when every selected position is one of the
    /// catalog, and the results recorded so far describe, one by one, the
    /// units at the head of the plan.
    pub open spec fn wf(&self) -> bool {
        &&& forall|k: int| 0 <= k < self.plan().len() ==> in_catalog(self.lessons(), #[trigger] self.plan()[k])
        &&& self.results().len() <= self.plan().len()
        &&& forall|k: int|
            0 <= k < self.results().len() ==> describes(self.lessons(), self.plan()[k], #[trigger] self.results()[k])
    }

    /// The state of the run: completed once every selected unit has a
    /// result, not started while none has, running in between.
    pub open spec fn spec_state(&self) -> RunState {
        if self.results().len() >= self.plan().len() {
            RunState::Completed
        } else if self.results().len() == 0 {
            RunState::NotStarted
        } else {
            RunState::Running
        }
    }

    /// Prepares a run of every unit of `catalog`. Nothing is executed.
    pub fn over_all(catalog: &'a Catalog<A>) -> (runner: Runner<'a, A>)
        ensures
            runner.plan() == full_plan(catalog.lessons()@),
            runner.lessons() == catalog.lessons()@,
            runner.results().len() == 0,
            runner.wf(),
    {
        let plan = plan_all(catalog);
        Runner { catalog, plan, results: Vec::new() }
    }

    /// Prepares a run of what `selection` selects in `catalog`. Nothing is
    /// executed. The selection is refused when it names a lesson or a unit
    /// that the catalog does not have.
    pub fn select(catalog: &'a Catalog<A>, selection: &Selection) -> (result: Result<Runner<'a, A>, CatalogError>)
        ensures
            match result {
                Ok(runner) => {
                    &&& plan_of(catalog.lessons()@, selection@) == Ok::<Seq<(int, int)>, Refusal>(runner.plan())
                    &&& runner.lessons() == catalog.lessons()@
                    &&& runner.results().len() == 0
                    &&& runner.wf()
                },
                Err(e) => plan_of(catalog.lessons()@, selection@) == Err::<Seq<(int, int)>, Refusal>(e@),
            },
    {
        match selection {
            Selection::All => Ok(Runner::over_all(catalog)),
            Selection::Lesson(lesson) => match catalog.lesson_index(lesson.as_str()) {
                None => Err(CatalogError::UnknownLesson(lesson.clone())),
                Some(i) => {
                    let plan = plan_lesson(catalog, i);
                    Ok(Runner { catalog, plan, results: Vec::new() })
                },
            },
            Selection::Unit(lesson, unit) => match catalog.lesson_index(lesson.as_str()) {
                None => Err(CatalogError::UnknownLesson(lesson.clone())),
                Some(i) => match catalog.lessons()[i].unit_index(unit.as_str()) {
                    None => Err(CatalogError::UnknownUnit(lesson.clone(), unit.clone())),
                    Some(j) => {
                        let mut plan: Vec<(usize, usize)> = Vec::new();
                        plan.push((i, j));
                        proof {
                            assert(positions(plan@) == seq![(i as int, j as int)]);
                        }
                        Ok(Runner { catalog, plan, results: Vec::new() })
                    },
                },
            },
        }
    }

    /// The state of the run.
    #[verifier::when_used_as_spec(spec_state)]
    pub fn state(&self) -> (state: RunState)
        ensures
            state == self.state(),
    {
        if self.results.len() >= self.plan.len() {
            RunState::Completed
        } else if self.results.len() == 0 {
            RunState::NotStarted
        } else {
            RunState::Running
        }
    }

    /// The unit that runs next; none once the run is completed.
    pub fn pending(&self) -> (next: Option<&'a ExampleUnit<A>>)
        requires
            self.wf(),
        ensures
            match next {
                Some(unit) => self.state() != RunState::Completed && *unit == unit_at(
                    self.lessons(),
                    self.plan()[self.results().len() as int],
                ),
                None => self.state() == RunState::Completed,
            },
    {
        if self.results.len() >= self.plan.len() {
            None
        } else {
            Some(self.current())
        }
    }

    /// The unit that runs next, in a run that is not completed.
    fn current(&self) -> (unit: &'a ExampleUnit<A>)
        requires
            self.wf(),
            self.state() != RunState::Completed,
        ensures
            *unit == unit_at(self.lessons(), self.plan()[self.results().len() as int]),
    {
        let done = self.results.len();
        let (i, j) = self.plan[done];
        proof {
            assert(in_catalog(self.lessons(), self.plan()[done as int]));
        }
        &self.catalog.lessons()[i].units()[j]
    }

    /// Records `outcome` as what the pending unit did, and moves on to the
    /// next unit.
    pub fn record(&mut self, outcome: Outcome)
        requires
            old(self).wf(),
            old(self).state() != RunState::Completed,
        ensures
            final(self).wf(),
            final(self).lessons() == old(self).lessons(),
            final(self).plan() == old(self).plan(),
            final(self).results().len() == old(self).results().len() + 1,
            final(self).results().drop_last() == old(self).results(),
            final(self).results().last().outcome == outcome,
            describes(
                old(self).lessons(),
                old(self).plan()[old(self).results().len() as int],
                final(self).results().last(),
            ),
    {
        let done = self.results.len();
        let (i, j) = self.plan[done];
        proof {
            assert(in_catalog(self.lessons(), self.plan()[done as int]));
        }
        let lesson = &self.catalog.lessons()[i];
        let unit = &lesson.units()[j];
        let matched = expectation_met(unit.expectation, &outcome);
        let result = RunResult { lesson: lesson.name().clone(), unit: unit.name.clone(), outcome, matched };
        let ghost before = self.results@;
        self.results.push(result);
        proof {
            assert(self.results@.drop_last() == before);
        }
    }

    /// Executes the pending unit with `exec` and records what it reports.
    pub fn step<F: Fn(&A) -> Outcome>(&mut self, exec: &F)
        requires
            old(self).wf(),
            old(self).state() != RunState::Completed,
            call_requires(
                *exec,
                (&unit_at(old(self).lessons(), old(self).plan()[old(self).results().len() as int]).action,),
            ),
        ensures
            final(self).wf(),
            final(self).lessons() == old(self).lessons(),
            final(self).plan() == old(self).plan(),
            final(self).results().len() == old(self).results().len() + 1,
            final(self).results().drop_last() == old(self).results(),
            describes(
                old(self).lessons(),
                old(self).plan()[old(self).results().len() as int],
                final(self).results().last(),
            ),
            call_ensures(
                *exec,
                (&unit_at(old(self).lessons(), old(self).plan()[old(self).results().len() as int]).action,),
                final(self).results().last().outcome,
            ),
    {
        let unit = self.current();
        let outcome = exec(&unit.action);
        self.record(outcome);
    }

    /// Executes every selected unit with `exec`, in the plan's order, and
    /// returns one result for each. A failing unit is recorded like any
    /// other and does not stop the run.
    pub fn run<F: Fn(&A) -> Outcome>(self, exec: &F) -> (results: Vec<RunResult>)
        requires
            self.wf(),
            self.results().len() == 0,
            accepts(*exec, self.lessons(), self.plan()),
        ensures
            is_run_of(results@, *exec, self.lessons(), self.plan()),
    {
        let mut runner = self;
        while runner.results.len() < runner.plan.len()
            invariant
                runner.wf(),
                runner.lessons() == self.lessons(),
                runner.plan() == self.plan(),
                accepts(*exec, self.lessons(), self.plan()),
                forall|k: int|
                    0 <= k < runner.results().len() ==> call_ensures(
                        *exec,
                        (&unit_at(self.lessons(), self.plan()[k]).action,),
                        (#[trigger] runner.results()[k]).outcome,
                    ),
            decreases runner.plan().len() - runner.results().len(),
        {
            let ghost before = runner.results();
            runner.step(exec);
            proof {
                assert forall|k: int| 0 <= k < runner.results().len() implies call_ensures(
                    *exec,
                    (&unit_at(self.lessons(), self.plan()[k]).action,),
                    (#[trigger] runner.results()[k]).outcome,
                ) by {
                    if k < before.len() {
                        assert(runner.results()[k] == runner.results().drop_last()[k]);
                    }
                }
            }
        }
        runner.results
    }

    /// The results recorded so far, in running order.
    pub fn into_results(self) -> (results: Vec<RunResult>)
        ensures
            results@ == self.results(),
    {
        self.results
    }
}

/// Runs what `selection` selects in `catalog`: the units in catalog order,
/// each executed once with `exec`, one result for each. A selection that
/// names an unknown lesson or unit is refused, and then `exec` was not
/// called.
pub fn run_selection<A, F: Fn(&A) -> Outcome>(catalog: &Catalog<A>, selection: &Selection, exec: &F) -> (result: Result<
    Vec<RunResult>,
    CatalogError,
>)
    requires
        plan_of(catalog.lessons()@, selection@) matches Ok(plan) ==> accepts(*exec, catalog.lessons()@, plan),
    ensures
        match result {
            Ok(results) => plan_of(catalog.lessons()@, selection@) matches Ok(plan) && is_run_of(
                results@,
                *exec,
                catalog.lessons()@,
                plan,
            ),
            Err(e) => plan_of(catalog.lessons()@, selection@) == Err::<Seq<(int, int)>, Refusal>(e@),
        },
{
    match Runner::select(catalog, selection) {
        Ok(runner) => Ok(runner.run(exec)),
        Err(e) => Err(e),
    }
}

/// Runs every unit of every lesson, in registration order, and returns one
/// result for each unit in that order.
pub fn run_all<A, F: Fn(&A) -> Outcome>(catalog: &Catalog<A>, exec: &F) -> (results: Vec<RunResult>)
    requires
        accepts(*exec, catalog.lessons()@, full_plan(catalog.lessons()@)),
    ensures
        is_run_of(results@, *exec, catalog.lessons()@, full_plan(catalog.lessons()@)),
{
    Runner::over_all(catalog).run(exec)
}

/// Runs the units of the lesson called `lesson`, in registration order.
/// Refused with `UnknownLesson` when there is no such lesson; `exec` was not
/// called then.
pub fn run_lesson<A, F: Fn(&A) -> Outcome>(catalog: &Catalog<A>, lesson: &str, exec: &F) -> (result: Result<
    Vec<RunResult>,
    CatalogError,
>)
    requires
        plan_of(catalog.lessons()@, Scope::Lesson(lesson@)) matches Ok(plan) ==> accepts(
            *exec,
            catalog.lessons()@,
            plan,
        ),
    ensures
        match result {
            Ok(results) => plan_of(catalog.lessons()@, Scope::Lesson(lesson@)) matches Ok(plan) && is_run_of(
                results@,
                *exec,
                catalog.lessons()@,
                plan,
            ),
            Err(e) => plan_of(catalog.lessons()@, Scope::Lesson(lesson@)) == Err::<Seq<(int, int)>, Refusal>(
                e@,
            ),
        },
{
    let selection = Selection::Lesson(lesson.to_owned());
    run_selection(catalog, &selection, exec)
}

/// Runs the unit `unit` of the lesson `lesson`, and nothing else. Refused
/// with `UnknownLesson` or `UnknownUnit` when there is no such lesson or
/// unit; `exec` was not called then.
pub fn run_unit<A, F: Fn(&A) -> Outcome>(catalog: &Catalog<A>, lesson: &str, unit: &str, exec: &F) -> (result: Result<
    RunResult,
    CatalogError,
>)
    requires
        catalog.locate(lesson@, unit@) matches Ok(at) ==> call_requires(
            *exec,
            (&unit_at(catalog.lessons()@, at).action,),
        ),
    ensures
        match result {
            Ok(run) => {
                &&& catalog.locate(lesson@, unit@) matches Ok(at)
                &&& describes(catalog.lessons()@, at, run)
                &&& call_ensures(*exec, (&unit_at(catalog.lessons()@, at).action,), run.outcome)
            },
            Err(e) => catalog.locate(lesson@, unit@) == Err::<(int, int), Refusal>(e@),
        },
{
    match catalog.find(lesson, unit) {
        Err(e) => Err(e),
        Ok(found) => {
            proof {
                lemma_position_found(lesson_names(catalog.lessons()@), lesson@);
                let i = position(lesson_names(catalog.lessons()@), lesson@)->0;
                lemma_position_found(unit_names(catalog.lessons()@[i].units()@), unit@);
            }
            let outcome = exec(&found.action);
            let matched = expectation_met(found.expectation, &outcome);
            Ok(RunResult { lesson: lesson.to_owned(), unit: unit.to_owned(), outcome, matched })
        },
    }
}

/// The number of units in `lessons`.
pub open spec fn unit_count<A>(lessons: Seq<Lesson<A>>) -> nat
    decreases lessons.len(),
{
    if lessons.len() == 0 {
        0
    } else {
        unit_count(lessons.drop_last()) + lessons.last().units()@.len()
    }
}

/// Position `a` comes before position `b` in catalog order: its lesson is
/// an earlier one, or it is an earlier unit of the same lesson.
pub open spec fn comes_before(a: (int, int), b: (int, int)) -> bool {
    a.0 < b.0 || (a.0 == b.0 && a.1 < b.1)
}

/// The plan of a whole catalog visits every unit once, in catalog order: it
/// is as long as the catalog has units, it holds only positions of the
/// catalog, each position of the catalog is in it, and its positions ascend,
/// so that none occurs twice.
pub proof fn lemma_full_plan_visits_units_in_order<A>(lessons: Seq<Lesson<A>>)
    ensures
        full_plan(lessons).len() == unit_count(lessons),
        forall|k: int| 0 <= k < full_plan(lessons).len() ==> in_catalog(lessons, #[trigger] full_plan(lessons)[k]),
        forall|a: int, b: int|
            0 <= a < b < full_plan(lessons).len() ==> comes_before(
                #[trigger] full_plan(lessons)[a],
                #[trigger] full_plan(lessons)[b],
            ),
        forall|at: (int, int)| in_catalog(lessons, at) ==> full_plan(lessons).contains(at),
    decreases lessons.len(),
{
    if lessons.len() > 0 {
        let shorter = lessons.drop_last();
        let head = full_plan(shorter);
        let last = lessons.len() - 1;
        let tail = lesson_plan(last, lessons.last().units()@.len());
        let plan = full_plan(lessons);
        lemma_full_plan_visits_units_in_order(shorter);
        assert(plan == head + tail);
        assert forall|k: int| 0 <= k < plan.len() implies in_catalog(lessons, #[trigger] plan[k]) by {
            if k < head.len() {
                assert(in_catalog(shorter, head[k]));
                assert(shorter[head[k].0] == lessons[head[k].0]);
            } else {
                assert(plan[k] == tail[k - head.len()]);
            }
        }
        assert forall|a: int, b: int| 0 <= a < b < plan.len() implies comes_before(
            #[trigger] plan[a],
            #[trigger] plan[b],
        ) by {
            if b < head.len() {
                assert(comes_before(head[a], head[b]));
            } else if a < head.len() {
                assert(in_catalog(shorter, head[a]));
                assert(plan[b] == tail[b - head.len()]);
            } else {
                assert(plan[a] == tail[a - head.len()]);
                assert(plan[b] == tail[b - head.len()]);
            }
        }
        assert forall|at: (int, int)| in_catalog(lessons, at) implies plan.contains(at) by {
            if at.0 < last {
                assert(shorter[at.0] == lessons[at.0]);
                assert(in_catalog(shorter, at));
                let k = choose|k: int| 0 <= k < head.len() && head[k] == at;
                assert(plan[k] == at);
            } else {
                assert(tail[at.1] == at);
                assert(plan[head.len() + at.1] == at);
            }
        }
    }
}

/// The names under which the units of `lessons` are listed when the lessons
/// are gone through in order and, for each lesson, its units in order: for
/// each unit the name of its lesson and its own.
pub open spec fn listing<A>(lessons: Seq<Lesson<A>>) -> Seq<(Name, Name)>
    decreases lessons.len(),
{
    if lessons.len() == 0 {
        Seq::empty()
    } else {
        listing(lessons.drop_last()) + unit_names(lessons.last().units()@).map_values(
            |unit: Name| (lessons.last().name()@, unit),
        )
    }
}

/// The names that `results` carry: for each result the name of the lesson
/// and that of the unit.
pub open spec fn names_run(results: Seq<RunResult>) -> Seq<(Name, Name)> {
    results.map_values(|result: RunResult| (result.lesson@, result.unit@))
}

/// Results that follow the plan of a whole catalog carry the names of the
/// catalog's listing, in the listing's order.
pub proof fn lemma_full_run_names<A>(results: Seq<RunResult>, lessons: Seq<Lesson<A>>)
    requires
        follows(results, lessons, full_plan(lessons)),
    ensures
        names_run(results) == listing(lessons),
    decreases lessons.len(),
{
    if lessons.len() == 0 {
        assert(names_run(results) =~= listing(lessons));
    } else {
        let shorter = lessons.drop_last();
        let head = full_plan(shorter);
        let last = lessons.len() - 1;
        let units = lessons.last().units()@;
        let tail = lesson_plan(last, units.len());
        let plan = full_plan(lessons);
        assert(plan == head + tail);
        lemma_full_plan_visits_units_in_order(shorter);
        let earlier = results.take(head.len() as int);
        assert forall|k: int| 0 <= k < head.len() implies describes(shorter, head[k], #[trigger] earlier[k]) by {
            assert(plan[k] == head[k]);
            assert(in_catalog(shorter, head[k]));
            assert(shorter[head[k].0] == lessons[head[k].0]);
            assert(describes(lessons, plan[k], results[k]));
        }
        lemma_full_run_names(earlier, shorter);
        let named = unit_names(units).map_values(|unit: Name| (lessons.last().name()@, unit));
        assert(names_run(results).len() == listing(lessons).len());
        assert forall|k: int| 0 <= k < results.len() implies names_run(results)[k] == listing(lessons)[k] by {
            if k < head.len() {
                assert(names_run(earlier)[k] == names_run(results)[k]);
                assert(listing(lessons)[k] == listing(shorter)[k]);
            } else {
                let j = k - head.len();
                assert(plan[k] == tail[j]);
                assert(describes(lessons, plan[k], results[k]));
                assert(listing(lessons)[k] == named[j]);
            }
        }
        assert(names_run(results) =~= listing(lessons));
    }
}

/// A run of the whole catalog gives one result for each unit, in the order
/// in which listing the lessons, and for each lesson its units, names them.
pub proof fn lemma_run_all_follows_listing<A, F: Fn(&A) -> Outcome>(
    results: Seq<RunResult>,
    exec: F,
    lessons: Seq<Lesson<A>>,
)
    requires
        is_run_of(results, exec, lessons, full_plan(lessons)),
    ensures
        results.len() == unit_count(lessons),
        names_run(results) == listing(lessons),
        forall|k: int|
            0 <= k < results.len() ==> {
                let at = full_plan(lessons)[k];
                &&& in_catalog(lessons, at)
                &&& (#[trigger] results[k]).lesson@ == lesson_names(lessons)[at.0]
                &&& results[k].unit@ == unit_names(lessons[at.0].units()@)[at.1]
            },
        forall|a: int, b: int|
            0 <= a < b < results.len() ==> comes_before(
                #[trigger] full_plan(lessons)[a],
                #[trigger] full_plan(lessons)[b],
            ),
{
    lemma_full_plan_visits_units_in_order(lessons);
    lemma_full_run_names(results, lessons);
    assert forall|k: int| 0 <= k < results.len() implies {
        let at = full_plan(lessons)[k];
        &&& in_catalog(lessons, at)
        &&& (#[trigger] results[k]).lesson@ == lesson_names(lessons)[at.0]
        &&& results[k].unit@ == unit_names(lessons[at.0].units()@)[at.1]
    } by {
        let at = full_plan(lessons)[k];
        assert(in_catalog(lessons, at));
        assert(describes(lessons, at, results[k]));
    }
}

/// A refused selection asks nothing of the executor. The run functions
/// demand that the executor accepts the actions of the selected units, and
/// of no others. Where the selection is refused there are no selected units:
/// the demand is met by every executor, also by one that accepts no action
/// at all. So a run function cannot call the executor before it has found
/// the selection to be good, and a refused run has executed nothing.
pub proof fn lemma_refused_selection_asks_nothing<A, F: Fn(&A) -> Outcome>(
    lessons: Seq<Lesson<A>>,
    scope: Scope,
    exec: F,
)
    requires
        plan_of(lessons, scope) is Err,
    ensures
        plan_of(lessons, scope) matches Ok(plan) ==> accepts(exec, lessons, plan),
        !(scope is All),
        scope matches Scope::Lesson(lesson) ==> !lesson_names(lessons).contains(lesson),
        scope matches Scope::Unit(lesson, unit) ==> !lesson_names(lessons).contains(lesson) || (position(
            lesson_names(lessons),
            lesson,
        ) matches Some(i) && !unit_names(lessons[i].units()@).contains(unit)),
{
}

/// What matches what: a failure matches a unit declared to fail and no
/// other, and a normal completion matches a unit declared to succeed and no
/// other.
pub proof fn lemma_what_matches(reason: String)
    ensures
        meets(Expectation::ExpectFailure, Outcome::Failed(reason)),
        !meets(Expectation::ExpectFailure, Outcome::Succeeded),
        !meets(Expectation::ExpectSuccess, Outcome::Failed(reason)),
        meets(Expectation::ExpectSuccess, Outcome::Succeeded),
{
}

/// What a recorded result says of its unit. A result that describes a unit
/// declared to fail has matched exactly if the unit failed, and one that
/// describes a unit declared to succeed has matched exactly if the unit
/// succeeded.
pub proof fn lemma_matched_as_declared<A>(lessons: Seq<Lesson<A>>, at: (int, int), result: RunResult)
    requires
        describes(lessons, at, result),
    ensures
        unit_at(lessons, at).expectation == Expectation::ExpectFailure ==> (result.matched
            <==> result.outcome is Failed),
        unit_at(lessons, at).expectation == Expectation::ExpectSuccess ==> (result.matched
            <==> result.outcome is Succeeded),
{
}

/// A failing unit is recorded and the run goes on. In a run, a unit that
/// failed has its result, which matched exactly if the unit was declared to
/// fail; and every unit selected after it has its result too.
pub proof fn lemma_failure_does_not_end_run<A, F: Fn(&A) -> Outcome>(
    results: Seq<RunResult>,
    exec: F,
    lessons: Seq<Lesson<A>>,
    plan: Seq<(int, int)>,
    failed: int,
)
    requires
        is_run_of(results, exec, lessons, plan),
        0 <= failed < plan.len(),
        results[failed].outcome is Failed,
    ensures
        results.len() == plan.len(),
        results[failed].matched == (unit_at(lessons, plan[failed]).expectation == Expectation::ExpectFailure),
        forall|later: int|
            failed < later < plan.len() ==> describes(lessons, plan[later], #[trigger] results[later]),
{
    assert(describes(lessons, plan[failed], results[failed]));
}

} // verus!
