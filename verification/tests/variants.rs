use lesson_catalog::lessons::classes;
use lesson_catalog::lessons::full_files;
use lesson_catalog::lessons::enums::IpAddr;

#[test]
fn classes_vec_adds_the_sum_and_the_first_element() {
    assert_eq!(
        classes::ownership::vec(),
        (16, "asda".to_string(), vec![5, 5, 6], vec![55, 55, 56])
    );
}

#[test]
fn full_files_vec_adds_two_elements() {
    assert_eq!(full_files::ownership::vec(), (11, vec![5, 5, 6], vec![55, 55, 56]));
}

#[test]
fn classes_strings() {
    assert_eq!(
        classes::ownership::strings(),
        ("wa".to_string(), "hell is real to worldlings".to_string(), vec!['h', 'e', 'l', 'l'])
    );
}

#[test]
fn full_files_strings() {
    assert_eq!(
        full_files::ownership::strings(),
        (
            "hello".to_string(),
            "mehs".to_string(),
            "he".to_string(),
            "hell is real to worldlings".to_string(),
            vec!['h', 'e', 'l', 'l']
        )
    );
}

#[test]
fn classes_refs_and_borrowing_pushes_twice() {
    assert_eq!(
        classes::ownership::refs_and_borrowing(),
        (5, "helloaa".to_string(), "hello, world".to_string(), "hello".to_string())
    );
}

#[test]
fn full_files_refs_and_borrowing_only_reads() {
    assert_eq!(
        full_files::ownership::refs_and_borrowing(),
        ("hello".to_string(), 5, "hello, world".to_string(), "hello".to_string())
    );
}

#[test]
fn classes_slices_reads_the_slice_of_the_vector() {
    assert_eq!(
        classes::ownership::slices(),
        ("hello".to_string(), "world".to_string(), 4, Some(4))
    );
}

#[test]
fn full_files_slices_reads_the_vector() {
    assert_eq!(
        full_files::ownership::slices(),
        ("hello".to_string(), "world".to_string(), 3, Some(3))
    );
}

#[test]
fn classes_question_mark_reaches_the_end() {
    classes::enums::option();
    assert_eq!(classes::enums::retop(), Some("asd".to_string()));
    assert_eq!(classes::enums::qm(), Some(4));
    assert_eq!(classes::enums::testqm(), (Some(4), Some("asd".to_string())));
}

#[test]
fn full_files_question_mark_hands_on_none() {
    full_files::enums::option();
    assert_eq!(full_files::enums::retop(), Some(3));
    assert_eq!(full_files::enums::qm(), None);
    assert_eq!(full_files::enums::testqm(), (None, Some(3)));
}

#[test]
fn classes_patternmatching_takes_the_loopback_arm() {
    assert_eq!(
        classes::enums::patternmatching(),
        ("Is V4 loopback".to_string(), 10, false)
    );
    assert_eq!(classes::enums::describe_address(&IpAddr::V4(127, 0, 0, 1)), "Is V4 loopback");
    assert_eq!(classes::enums::describe_address(&IpAddr::V4(10, 0, 0, 127)), "Is V4");
    assert_eq!(classes::enums::describe_address(&IpAddr::V6("::1".to_string())), "Is V6");
    assert_eq!(classes::enums::describe_address(&IpAddr::V0()), " errror");
}

#[test]
fn full_files_patternmatching_takes_the_general_arm_and_ends_on_none() {
    assert_eq!(
        full_files::enums::patternmatching(),
        ("Is V4".to_string(), 10, false, None)
    );
    assert_eq!(full_files::enums::describe_address(&IpAddr::V4(127, 0, 0, 1)), "Is V4");
    assert_eq!(full_files::enums::describe_address(&IpAddr::V4(1, 2, 3, 4)), "Is V4");
    assert_eq!(full_files::enums::describe_address(&IpAddr::V6("::1".to_string())), "Is V6");
    assert_eq!(full_files::enums::describe_address(&IpAddr::V0()), " catch all");
}

#[test]
fn classes_greeting_gives_the_programmers_user_name() {
    let e = classes::traits::Entity { nm: "marco".to_string() };
    assert_eq!(
        classes::traits::comp_sci_student_greeting(&e),
        "My name is marco and I attend unitn. My favorite language is Rust!. My Git username is aswd"
    );
    assert_eq!(classes::traits::CompSciStudent::git_username(&e), "squera");
    assert_eq!(classes::traits::Programmer::git_username(&e), "aswd");
    assert_eq!(
        classes::traits::example_supertraits(),
        (
            "My name is marco and I attend unitn. My favorite language is Rust!. My Git username is aswd"
                .to_string(),
            "My name is pigna and I attend unitn. My favorite language is Rust!. My Git username is aswd"
                .to_string()
        )
    );
}

#[test]
fn full_files_greeting_gives_the_students_user_name() {
    let e = full_files::traits::Entity { nm: "marco".to_string() };
    assert_eq!(
        full_files::traits::comp_sci_student_greeting(&e),
        "My name is marco and I attend unitn. My favorite language is Rust!. My Git username is squera"
    );
    assert_eq!(full_files::traits::CompSciStudent::git_username(&e), "squera");
    assert_eq!(full_files::traits::Programmer::fav_language(&e), "Rust!");
    assert_eq!(
        full_files::traits::example_supertraits(),
        (
            "My name is marco and I attend unitn. My favorite language is Rust!. My Git username is squera"
                .to_string(),
            "My name is pigna and I attend unitn. My favorite language is Rust!. My Git username is squera"
                .to_string()
        )
    );
}

#[test]
fn both_trees_struct_generic() {
    assert_eq!(classes::generics::struct_generic(), (5, 0));
    assert_eq!(full_files::generics::struct_generic(), (5, 0));
}

#[test]
fn both_trees_example_notify() {
    let lines = (
        "Breaking news! Marco: no way jose".to_string(),
        "More Breaking news! Marco: no way jose".to_string(),
    );
    assert_eq!(classes::traits::example_notify(), lines);
    assert_eq!(full_files::traits::example_notify(), lines);
}

#[test]
fn full_files_index_is_taken_down_to_five() {
    assert_eq!(full_files::basics::clamped_index(0), 0);
    assert_eq!(full_files::basics::clamped_index(4), 4);
    assert_eq!(full_files::basics::clamped_index(5), 5);
    assert_eq!(full_files::basics::clamped_index(6), 5);
    assert_eq!(full_files::basics::clamped_index(u32::MAX), 5);
}
