use lesson_catalog::lessons::basics::{crapadd, okadd};

#[test]
fn test_crapadd() {
    assert_eq!(crapadd(1, 3), 2);
}

#[test]
fn test_okadd() {
    assert_eq!(okadd(1, 5), 6);
}

#[test]
fn c01_basic_test_crapadd() {
    assert_eq!(crapadd(1, 3), 2);
}

#[test]
fn c01_basic_test_okadd() {
    assert_eq!(okadd(1, 5), 6);
}
