use lesson_catalog::text::{digit_text, push_decimal, push_signed};

fn decimal(n: usize) -> String {
    let mut text = String::new();
    push_decimal(&mut text, n);
    text
}

fn signed(n: i32) -> String {
    let mut text = String::new();
    push_signed(&mut text, n);
    text
}

#[test]
fn digits() {
    assert_eq!(digit_text(0), "0");
    assert_eq!(digit_text(7), "7");
    assert_eq!(digit_text(9), "9");
}

#[test]
fn decimal_numbers() {
    assert_eq!(decimal(0), "0");
    assert_eq!(decimal(9), "9");
    assert_eq!(decimal(10), "10");
    assert_eq!(decimal(1203), "1203");
    assert_eq!(decimal(usize::MAX), usize::MAX.to_string());
}

#[test]
fn decimal_is_appended() {
    let mut text = "n = ".to_string();
    push_decimal(&mut text, 42);
    assert_eq!(text, "n = 42");
}

#[test]
fn signed_numbers() {
    assert_eq!(signed(0), "0");
    assert_eq!(signed(42), "42");
    assert_eq!(signed(-1), "-1");
    assert_eq!(signed(i32::MAX), "2147483647");
    assert_eq!(signed(i32::MIN), "-2147483648");
}
