use rust_book::add_one;
use rust_book::add_two;
use rust_book::greeting;
use rust_book::rectangle::Rectangle;

#[test]
fn tests_exploration() {
    let result: i32 = 2 + 2;
    assert_eq!(result, 4);
}

#[test]
fn tests_it_adds_two() {
    assert_eq!(4, add_two(2));
}

#[test]
fn tests_another() {}

#[test]
fn tests_larger_can_hold_smaller() {
    let r = Rectangle::new(4, 4);
    let s = Rectangle::new(2, 2);
    assert!(r.can_hold(&s));
}

#[test]
fn tests_smaller_cannot_hold_smaller() {
    let r = Rectangle::new(4, 4);
    let s = Rectangle::new(2, 2);
    assert!(!s.can_hold(&r));
}

#[test]
fn tests_greeting_contains_name() {
    let result = greeting("Carol");
    assert!(
        result.contains("Carol"),
        "Greeting did not contain name, value was `{}`",
        result
    );
}

#[test]
fn unit_tests_exploration() {
    let result: i32 = 2 + 2;
    assert_eq!(result, 4);
}

#[test]
fn unit_tests_it_adds_two() {
    assert_eq!(4, add_two(2));
}

#[test]
fn unit_tests_greeting_contains_name() {
    let result = greeting("Carol");
    assert!(
        result.contains("Carol"),
        "Greeting did not contain name, value was `{}`",
        result
    );
}

#[test]
fn it_works() -> Result<(), String> {
    if 2 + 2 == 4 {
        Ok(())
    } else {
        Err(String::from("two plus two does not equal four"))
    }
}

#[test]
fn integration_test_it_adds_two() {
    assert_eq!(4, 2 + 2);
}

#[test]
fn greeting_exact_text() {
    assert_eq!(greeting("Carol"), "Hello Carol!");
}

#[test]
fn add_one_adds_one() {
    assert_eq!(6, add_one(5));
}
