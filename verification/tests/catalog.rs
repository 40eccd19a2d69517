use lesson_catalog::catalog::{Catalog, CatalogError, ExampleUnit, Expectation};

fn unit(name: &str, expectation: Expectation) -> ExampleUnit<u32> {
    ExampleUnit::new(name, 0, expectation)
}

fn two_lessons() -> Catalog<u32> {
    let mut catalog = Catalog::new();
    catalog
        .register(
            "ownership",
            vec![
                unit("moveSemantics", Expectation::ExpectSuccess),
                unit("doubleMove", Expectation::ExpectFailure),
            ],
        )
        .unwrap();
    catalog
        .register(
            "traits",
            vec![
                unit("summary", Expectation::ExpectSuccess),
                unit("notify", Expectation::ExpectSuccess),
                unit("animals", Expectation::ExpectSuccess),
            ],
        )
        .unwrap();
    catalog
}

#[test]
fn new_catalog_is_empty() {
    let catalog: Catalog<u32> = Catalog::new();
    assert_eq!(catalog.list_lessons(), Vec::<String>::new());
    assert_eq!(catalog.lessons().len(), 0);
}

#[test]
fn lessons_are_listed_in_registration_order() {
    let catalog = two_lessons();
    assert_eq!(catalog.list_lessons(), vec!["ownership".to_string(), "traits".to_string()]);
}

#[test]
fn units_are_listed_in_registration_order() {
    let catalog = two_lessons();
    assert_eq!(
        catalog.list_units("traits"),
        Ok(vec!["summary".to_string(), "notify".to_string(), "animals".to_string()])
    );
    assert_eq!(
        catalog.list_units("ownership"),
        Ok(vec!["moveSemantics".to_string(), "doubleMove".to_string()])
    );
}

#[test]
fn listing_is_restartable() {
    let catalog = two_lessons();
    assert_eq!(catalog.list_lessons(), catalog.list_lessons());
    assert_eq!(catalog.list_units("traits"), catalog.list_units("traits"));
}

#[test]
fn a_lesson_may_have_no_units() {
    let mut catalog: Catalog<u32> = Catalog::new();
    assert_eq!(catalog.register("empty", vec![]), Ok(()));
    assert_eq!(catalog.list_units("empty"), Ok(vec![]));
}

#[test]
fn second_registration_of_a_name_is_refused_and_changes_nothing() {
    let mut catalog = two_lessons();
    let result = catalog.register("ownership", vec![unit("other", Expectation::ExpectSuccess)]);
    assert_eq!(result, Err(CatalogError::DuplicateLesson("ownership".to_string())));
    assert_eq!(catalog.list_lessons(), vec!["ownership".to_string(), "traits".to_string()]);
    assert_eq!(
        catalog.list_units("ownership"),
        Ok(vec!["moveSemantics".to_string(), "doubleMove".to_string()])
    );
}

#[test]
fn units_that_share_a_name_are_refused_and_nothing_is_registered() {
    let mut catalog = two_lessons();
    let result = catalog.register(
        "enums",
        vec![
            unit("a", Expectation::ExpectSuccess),
            unit("b", Expectation::ExpectSuccess),
            unit("a", Expectation::ExpectFailure),
        ],
    );
    assert_eq!(result, Err(CatalogError::DuplicateUnit("enums".to_string(), "a".to_string())));
    assert_eq!(catalog.list_lessons(), vec!["ownership".to_string(), "traits".to_string()]);
    assert_eq!(catalog.list_units("enums"), Err(CatalogError::UnknownLesson("enums".to_string())));
}

#[test]
fn the_first_repeated_unit_is_the_one_reported() {
    let mut catalog: Catalog<u32> = Catalog::new();
    let result = catalog.register(
        "l",
        vec![
            unit("x", Expectation::ExpectSuccess),
            unit("y", Expectation::ExpectSuccess),
            unit("y", Expectation::ExpectSuccess),
            unit("x", Expectation::ExpectSuccess),
        ],
    );
    assert_eq!(result, Err(CatalogError::DuplicateUnit("l".to_string(), "y".to_string())));
}

#[test]
fn a_taken_lesson_name_is_reported_before_repeated_units() {
    let mut catalog = two_lessons();
    let result = catalog.register(
        "traits",
        vec![unit("a", Expectation::ExpectSuccess), unit("a", Expectation::ExpectSuccess)],
    );
    assert_eq!(result, Err(CatalogError::DuplicateLesson("traits".to_string())));
}

#[test]
fn the_same_unit_name_may_occur_in_two_lessons() {
    let mut catalog: Catalog<u32> = Catalog::new();
    assert_eq!(catalog.register("one", vec![unit("intro", Expectation::ExpectSuccess)]), Ok(()));
    assert_eq!(catalog.register("two", vec![unit("intro", Expectation::ExpectFailure)]), Ok(()));
    assert_eq!(catalog.find("one", "intro").unwrap().expectation, Expectation::ExpectSuccess);
    assert_eq!(catalog.find("two", "intro").unwrap().expectation, Expectation::ExpectFailure);
}

#[test]
fn find_returns_the_unit() {
    let mut catalog: Catalog<u32> = Catalog::new();
    catalog
        .register(
            "ownership",
            vec![
                ExampleUnit::new("moveSemantics", 7, Expectation::ExpectSuccess),
                ExampleUnit::new("doubleMove", 9, Expectation::ExpectFailure).with_note("what fails here?"),
            ],
        )
        .unwrap();
    let found = catalog.find("ownership", "doubleMove").unwrap();
    assert_eq!(found.name, "doubleMove");
    assert_eq!(found.action, 9);
    assert_eq!(found.expectation, Expectation::ExpectFailure);
    assert_eq!(found.note, Some("what fails here?".to_string()));
    let first = catalog.find("ownership", "moveSemantics").unwrap();
    assert_eq!(first.action, 7);
    assert_eq!(first.note, None);
}

#[test]
fn find_says_what_is_unknown() {
    let catalog = two_lessons();
    assert_eq!(
        catalog.find("NoSuchLesson", "x").err(),
        Some(CatalogError::UnknownLesson("NoSuchLesson".to_string()))
    );
    assert_eq!(
        catalog.find("ownership", "NoSuchUnit").err(),
        Some(CatalogError::UnknownUnit("ownership".to_string(), "NoSuchUnit".to_string()))
    );
    assert_eq!(
        catalog.find("ownership", "summary").err(),
        Some(CatalogError::UnknownUnit("ownership".to_string(), "summary".to_string()))
    );
}

#[test]
fn names_are_compared_exactly() {
    let catalog = two_lessons();
    assert_eq!(
        catalog.list_units("Ownership"),
        Err(CatalogError::UnknownLesson("Ownership".to_string()))
    );
    assert_eq!(catalog.list_units(""), Err(CatalogError::UnknownLesson("".to_string())));
    assert_eq!(catalog.lesson_index("traits"), Some(1));
    assert_eq!(catalog.lesson_index("trait"), None);
    assert_eq!(catalog.lessons()[1].unit_index("animals"), Some(2));
    assert_eq!(catalog.lessons()[1].unit_index("moveSemantics"), None);
}

#[test]
fn lessons_give_their_name_and_units() {
    let catalog = two_lessons();
    let lesson = &catalog.lessons()[0];
    assert_eq!(lesson.name(), "ownership");
    assert_eq!(lesson.units().len(), 2);
    assert_eq!(lesson.units()[1].name, "doubleMove");
}

#[test]
fn error_messages_name_what_is_at_fault() {
    assert_eq!(
        CatalogError::DuplicateLesson("a".to_string()).message(),
        "duplicate lesson: a"
    );
    assert_eq!(
        CatalogError::DuplicateUnit("a".to_string(), "b".to_string()).message(),
        "duplicate unit in lesson a: b"
    );
    assert_eq!(CatalogError::UnknownLesson("a".to_string()).message(), "unknown lesson: a");
    assert_eq!(
        CatalogError::UnknownUnit("a".to_string(), "b".to_string()).message(),
        "unknown unit in lesson a: b"
    );
}

#[test]
fn errors_can_be_cloned() {
    let error = CatalogError::UnknownUnit("a".to_string(), "b".to_string());
    assert_eq!(error.clone(), error);
}
