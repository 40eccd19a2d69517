use std::cell::Cell;
use std::rc::Rc;

use lesson_catalog::catalog::{Catalog, CatalogError, ExampleUnit, Expectation};
use lesson_catalog::runner::{
    expectation_met, run_all, run_lesson, run_selection, run_unit, Outcome, RunResult, RunState, Runner,
};
use lesson_catalog::selection::Selection;

type Action = Box<dyn Fn() -> Result<(), String>>;

fn execute(action: &Action) -> Outcome {
    match action() {
        Ok(()) => Outcome::Succeeded,
        Err(reason) => Outcome::Failed(reason),
    }
}

fn counting(counter: &Rc<Cell<u32>>) -> Action {
    let counter = Rc::clone(counter);
    Box::new(move || {
        counter.set(counter.get() + 1);
        Ok(())
    })
}

fn failing(counter: &Rc<Cell<u32>>, reason: &str) -> Action {
    let counter = Rc::clone(counter);
    let reason = reason.to_string();
    Box::new(move || {
        counter.set(counter.get() + 1);
        Err(reason.clone())
    })
}

fn result(lesson: &str, unit: &str, outcome: Outcome, matched: bool) -> RunResult {
    RunResult { lesson: lesson.to_string(), unit: unit.to_string(), outcome, matched }
}

fn sample(counter: &Rc<Cell<u32>>) -> Catalog<Action> {
    let mut catalog = Catalog::new();
    catalog
        .register(
            "ownership",
            vec![
                ExampleUnit::new("moveSemantics", counting(counter), Expectation::ExpectSuccess),
                ExampleUnit::new("doubleMove", failing(counter, "value moved"), Expectation::ExpectFailure),
            ],
        )
        .unwrap();
    catalog
        .register(
            "traits",
            vec![
                ExampleUnit::new("first", counting(counter), Expectation::ExpectSuccess),
                ExampleUnit::new("middle", failing(counter, "boom"), Expectation::ExpectSuccess),
                ExampleUnit::new("last", counting(counter), Expectation::ExpectFailure),
            ],
        )
        .unwrap();
    catalog
}

#[test]
fn expectations_and_outcomes() {
    assert!(expectation_met(Expectation::ExpectSuccess, &Outcome::Succeeded));
    assert!(!expectation_met(Expectation::ExpectSuccess, &Outcome::Failed("x".to_string())));
    assert!(!expectation_met(Expectation::ExpectFailure, &Outcome::Succeeded));
    assert!(expectation_met(Expectation::ExpectFailure, &Outcome::Failed("x".to_string())));
}

#[test]
fn end_to_end_lesson_run() {
    let counter = Rc::new(Cell::new(0));
    let mut catalog: Catalog<Action> = Catalog::new();
    let raises: Action = Box::new(|| Err("use of moved value".to_string()));
    catalog
        .register(
            "ownership",
            vec![
                ExampleUnit::new("moveSemantics", counting(&counter), Expectation::ExpectSuccess),
                ExampleUnit::new("doubleMove", raises, Expectation::ExpectFailure),
            ],
        )
        .unwrap();
    let results = run_lesson(&catalog, "ownership", &execute).unwrap();
    assert_eq!(results.len(), 2);
    assert!(results[0].matched);
    assert!(results[1].matched);
    assert_eq!(counter.get(), 1);
    assert_eq!(
        results,
        vec![
            result("ownership", "moveSemantics", Outcome::Succeeded, true),
            result("ownership", "doubleMove", Outcome::Failed("use of moved value".to_string()), true),
        ]
    );
}

#[test]
fn run_all_gives_one_result_for_each_unit_in_listing_order() {
    let counter = Rc::new(Cell::new(0));
    let catalog = sample(&counter);
    let results = run_all(&catalog, &execute);
    let mut listed: Vec<(String, String)> = Vec::new();
    for lesson in catalog.list_lessons() {
        for unit in catalog.list_units(&lesson).unwrap() {
            listed.push((lesson.clone(), unit));
        }
    }
    let run: Vec<(String, String)> = results.iter().map(|r| (r.lesson.clone(), r.unit.clone())).collect();
    assert_eq!(run, listed);
    assert_eq!(results.len(), 5);
    assert_eq!(counter.get(), 5);
}

#[test]
fn run_all_records_outcomes_and_matches() {
    let counter = Rc::new(Cell::new(0));
    let catalog = sample(&counter);
    assert_eq!(
        run_all(&catalog, &execute),
        vec![
            result("ownership", "moveSemantics", Outcome::Succeeded, true),
            result("ownership", "doubleMove", Outcome::Failed("value moved".to_string()), true),
            result("traits", "first", Outcome::Succeeded, true),
            result("traits", "middle", Outcome::Failed("boom".to_string()), false),
            result("traits", "last", Outcome::Succeeded, false),
        ]
    );
}

#[test]
fn run_all_on_an_empty_catalog_gives_nothing() {
    let catalog: Catalog<Action> = Catalog::new();
    assert_eq!(run_all(&catalog, &execute), vec![]);
}

#[test]
fn expected_failure_that_fails_matches_and_one_that_succeeds_does_not() {
    let mut catalog: Catalog<Action> = Catalog::new();
    let raises: Action = Box::new(|| Err("no".to_string()));
    let completes: Action = Box::new(|| Ok(()));
    catalog
        .register(
            "l",
            vec![
                ExampleUnit::new("raises", raises, Expectation::ExpectFailure),
                ExampleUnit::new("completes", completes, Expectation::ExpectFailure),
            ],
        )
        .unwrap();
    let results = run_all(&catalog, &execute);
    assert_eq!(results[0].outcome, Outcome::Failed("no".to_string()));
    assert!(results[0].matched);
    assert_eq!(results[1].outcome, Outcome::Succeeded);
    assert!(!results[1].matched);
}

#[test]
fn a_failing_unit_in_the_middle_does_not_stop_the_run() {
    let counter = Rc::new(Cell::new(0));
    let catalog = sample(&counter);
    let results = run_lesson(&catalog, "traits", &execute).unwrap();
    assert_eq!(results.len(), 3);
    assert_eq!(results[1].outcome, Outcome::Failed("boom".to_string()));
    assert!(!results[1].matched);
    assert_eq!(results[2].unit, "last");
    assert_eq!(counter.get(), 3);
}

#[test]
fn run_lesson_runs_that_lesson_only() {
    let counter = Rc::new(Cell::new(0));
    let catalog = sample(&counter);
    let results = run_lesson(&catalog, "ownership", &execute).unwrap();
    assert_eq!(results.len(), 2);
    assert!(results.iter().all(|r| r.lesson == "ownership"));
    assert_eq!(counter.get(), 2);
}

#[test]
fn run_lesson_with_unknown_name_runs_nothing() {
    let counter = Rc::new(Cell::new(0));
    let catalog = sample(&counter);
    assert_eq!(
        run_lesson(&catalog, "NoSuchLesson", &execute),
        Err(CatalogError::UnknownLesson("NoSuchLesson".to_string()))
    );
    assert_eq!(counter.get(), 0);
}

#[test]
fn run_unit_runs_exactly_one_unit() {
    let counter = Rc::new(Cell::new(0));
    let catalog = sample(&counter);
    assert_eq!(
        run_unit(&catalog, "traits", "middle", &execute),
        Ok(result("traits", "middle", Outcome::Failed("boom".to_string()), false))
    );
    assert_eq!(counter.get(), 1);
}

#[test]
fn run_unit_with_unknown_names_runs_nothing() {
    let counter = Rc::new(Cell::new(0));
    let catalog = sample(&counter);
    assert_eq!(
        run_unit(&catalog, "NoSuchLesson", "x", &execute),
        Err(CatalogError::UnknownLesson("NoSuchLesson".to_string()))
    );
    assert_eq!(
        run_unit(&catalog, "ownership", "NoSuchUnit", &execute),
        Err(CatalogError::UnknownUnit("ownership".to_string(), "NoSuchUnit".to_string()))
    );
    assert_eq!(counter.get(), 0);
}

#[test]
fn run_selection_covers_the_three_kinds() {
    let counter = Rc::new(Cell::new(0));
    let catalog = sample(&counter);
    assert_eq!(run_selection(&catalog, &Selection::All, &execute).unwrap().len(), 5);
    assert_eq!(
        run_selection(&catalog, &Selection::Lesson("traits".to_string()), &execute).unwrap().len(),
        3
    );
    assert_eq!(
        run_selection(
            &catalog,
            &Selection::Unit("ownership".to_string(), "doubleMove".to_string()),
            &execute
        ),
        Ok(vec![result("ownership", "doubleMove", Outcome::Failed("value moved".to_string()), true)])
    );
    assert_eq!(counter.get(), 9);
    assert_eq!(
        run_selection(&catalog, &Selection::Unit("traits".to_string(), "none".to_string()), &execute),
        Err(CatalogError::UnknownUnit("traits".to_string(), "none".to_string()))
    );
    assert_eq!(counter.get(), 9);
}

#[test]
fn a_run_goes_through_its_states() {
    let counter = Rc::new(Cell::new(0));
    let catalog = sample(&counter);
    let mut runner = Runner::select(&catalog, &Selection::Lesson("ownership".to_string())).unwrap();
    assert_eq!(runner.state(), RunState::NotStarted);
    assert_eq!(runner.pending().unwrap().name, "moveSemantics");
    runner.step(&execute);
    assert_eq!(runner.state(), RunState::Running);
    assert_eq!(runner.pending().unwrap().name, "doubleMove");
    runner.record(Outcome::Succeeded);
    assert_eq!(runner.state(), RunState::Completed);
    assert!(runner.pending().is_none());
    assert_eq!(counter.get(), 1);
    assert_eq!(
        runner.into_results(),
        vec![
            result("ownership", "moveSemantics", Outcome::Succeeded, true),
            result("ownership", "doubleMove", Outcome::Succeeded, false),
        ]
    );
}

#[test]
fn a_run_of_nothing_is_completed_at_once() {
    let catalog: Catalog<Action> = Catalog::new();
    let runner = Runner::over_all(&catalog);
    assert_eq!(runner.state(), RunState::Completed);
    assert!(runner.pending().is_none());
    assert_eq!(runner.run(&execute), vec![]);
}

#[test]
fn selecting_executes_nothing() {
    let counter = Rc::new(Cell::new(0));
    let catalog = sample(&counter);
    let runner = Runner::select(&catalog, &Selection::All).unwrap();
    assert_eq!(runner.state(), RunState::NotStarted);
    assert!(Runner::select(&catalog, &Selection::Lesson("x".to_string())).is_err());
    assert_eq!(counter.get(), 0);
}

#[test]
fn results_and_outcomes_can_be_cloned() {
    let run = result("a", "b", Outcome::Failed("c".to_string()), false);
    assert_eq!(run.clone(), run);
    assert_eq!(Outcome::Succeeded.clone(), Outcome::Succeeded);
}
