use lesson_catalog::selection::{parse_selection, Selection, UsageError};

fn args(words: &[&str]) -> Vec<String> {
    words.iter().map(|w| w.to_string()).collect()
}

#[test]
fn no_argument_selects_everything() {
    assert_eq!(parse_selection(&args(&[])), Ok(Selection::All));
}

#[test]
fn lesson_flag_selects_a_lesson() {
    assert_eq!(
        parse_selection(&args(&["--lesson", "ownership"])),
        Ok(Selection::Lesson("ownership".to_string()))
    );
}

#[test]
fn lesson_and_unit_flags_select_a_unit() {
    assert_eq!(
        parse_selection(&args(&["--lesson", "ownership", "--unit", "doubleMove"])),
        Ok(Selection::Unit("ownership".to_string(), "doubleMove".to_string()))
    );
}

#[test]
fn other_arguments_are_refused() {
    assert_eq!(parse_selection(&args(&["--lesson"])), Err(UsageError));
    assert_eq!(parse_selection(&args(&["--unit", "x"])), Err(UsageError));
    assert_eq!(parse_selection(&args(&["ownership"])), Err(UsageError));
    assert_eq!(parse_selection(&args(&["--lesson", "a", "--unit"])), Err(UsageError));
    assert_eq!(parse_selection(&args(&["--unit", "x", "--lesson", "a"])), Err(UsageError));
    assert_eq!(parse_selection(&args(&["--lesson", "a", "--lesson", "b"])), Err(UsageError));
    assert_eq!(
        parse_selection(&args(&["--lesson", "a", "--unit", "b", "more"])),
        Err(UsageError)
    );
}

#[test]
fn a_name_may_look_like_a_flag() {
    assert_eq!(
        parse_selection(&args(&["--lesson", "--unit"])),
        Ok(Selection::Lesson("--unit".to_string()))
    );
}

#[test]
fn usage_message() {
    assert_eq!(UsageError.message(), "usage: [--lesson <name> [--unit <name>]]");
}

#[test]
fn selections_can_be_cloned() {
    let selection = Selection::Unit("a".to_string(), "b".to_string());
    assert_eq!(selection.clone(), selection);
}
