use lesson_catalog::reporter::{
    count_results, exit_code, first_mismatch, render, tally, LessonTally,
};
use lesson_catalog::runner::{Outcome, RunResult};

fn result(lesson: &str, unit: &str, outcome: Outcome, matched: bool) -> RunResult {
    RunResult { lesson: lesson.to_string(), unit: unit.to_string(), outcome, matched }
}

fn failed(reason: &str) -> Outcome {
    Outcome::Failed(reason.to_string())
}

fn mixed() -> Vec<RunResult> {
    vec![
        result("ownership", "moveSemantics", Outcome::Succeeded, true),
        result("traits", "first", Outcome::Succeeded, true),
        result("ownership", "doubleMove", failed("value moved"), true),
        result("traits", "middle", failed("boom"), false),
        result("traits", "last", Outcome::Succeeded, false),
        result("enums", "only", Outcome::Succeeded, true),
    ]
}

fn tally_of(lesson: &str, matched: usize, mismatched: usize) -> LessonTally {
    LessonTally { lesson: lesson.to_string(), matched, mismatched }
}

#[test]
fn tally_counts_by_lesson_in_order_of_first_occurrence() {
    assert_eq!(
        tally(&mixed()),
        vec![tally_of("ownership", 2, 0), tally_of("traits", 1, 2), tally_of("enums", 1, 0)]
    );
}

#[test]
fn tally_of_nothing_is_empty() {
    assert_eq!(tally(&vec![]), vec![]);
}

#[test]
fn the_tallies_account_for_every_result() {
    let results = mixed();
    let tallies = tally(&results);
    let counted: usize = tallies.iter().map(|t| t.matched + t.mismatched).sum();
    assert_eq!(counted, results.len());
    assert_eq!(count_results(&results, true), 4);
    assert_eq!(count_results(&results, false), 2);
}

#[test]
fn first_mismatch_is_the_earliest() {
    assert_eq!(first_mismatch(&mixed()), Some(3));
    assert_eq!(first_mismatch(&vec![]), None);
    assert_eq!(
        first_mismatch(&vec![result("a", "b", failed("expected"), true)]),
        None
    );
    assert_eq!(first_mismatch(&vec![result("a", "b", Outcome::Succeeded, false)]), Some(0));
}

#[test]
fn exit_code_is_zero_only_if_everything_matched() {
    assert_eq!(exit_code(&vec![]), 0);
    assert_eq!(
        exit_code(&vec![
            result("a", "b", Outcome::Succeeded, true),
            result("a", "c", failed("as declared"), true),
        ]),
        0
    );
    assert_eq!(exit_code(&mixed()), 1);
}

#[test]
fn render_of_a_run_with_mismatches() {
    assert_eq!(
        render(&mixed()),
        "ownership: 2 matched, 0 mismatched\n\
         traits: 1 matched, 2 mismatched\n\
         enums: 1 matched, 0 mismatched\n\
         total: 4 matched, 2 mismatched\n\
         first failure: traits/middle: failed: boom\n"
    );
}

#[test]
fn render_of_a_clean_run() {
    assert_eq!(
        render(&vec![
            result("ownership", "moveSemantics", Outcome::Succeeded, true),
            result("ownership", "doubleMove", failed("value moved"), true),
        ]),
        "ownership: 2 matched, 0 mismatched\ntotal: 2 matched, 0 mismatched\n"
    );
}

#[test]
fn render_of_nothing() {
    assert_eq!(render(&vec![]), "total: 0 matched, 0 mismatched\n");
}

#[test]
fn render_says_when_an_expected_failure_did_not_come() {
    assert_eq!(
        render(&vec![result("l", "u", Outcome::Succeeded, false)]),
        "l: 0 matched, 1 mismatched\n\
         total: 0 matched, 1 mismatched\n\
         first failure: l/u: succeeded, but was expected to fail\n"
    );
}

#[test]
fn render_writes_counts_with_several_digits() {
    let mut results = Vec::new();
    for i in 0..123 {
        results.push(result("big", &format!("u{}", i), Outcome::Succeeded, i % 10 != 0));
    }
    assert_eq!(
        render(&results),
        "big: 110 matched, 13 mismatched\n\
         total: 110 matched, 13 mismatched\n\
         first failure: big/u0: succeeded, but was expected to fail\n"
    );
}
