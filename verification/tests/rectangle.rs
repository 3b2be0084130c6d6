use rust_book::rectangle::Rectangle;

#[test]
fn rectangle_larger_can_hold_smaller() {
    let r = Rectangle::new(4, 4);
    let s = Rectangle::new(2, 2);
    assert!(r.can_hold(&s));
}

#[test]
fn rectangle_smaller_cannot_hold_smaller() {
    let r = Rectangle::new(4, 4);
    let s = Rectangle::new(2, 2);
    assert!(!s.can_hold(&r));
}

#[test]
fn identical_rectangles() {
    assert_eq!(Rectangle::new(2, 2), Rectangle::new(2, 2));
}

#[test]
fn new_doubles_the_height() {
    let r = Rectangle::new(3, 5);
    assert_eq!(r.width, 3);
    assert_eq!(r.height, 10);
}

#[test]
fn area_of_a_square() {
    let sq = Rectangle::square(7);
    assert_eq!(sq.width, 7);
    assert_eq!(sq.height, 7);
    assert_eq!(sq.area(), 49);
}
