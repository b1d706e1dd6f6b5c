use std::cmp::Ordering;

use fbtext::shapes::{Rect, Shape};

#[test]
fn area_is_length_times_width() {
    let r = Rect::new(12, 9, "Rectangle 1");
    assert_eq!(r.area(), 108);
}

#[test]
fn default_is_unit_square() {
    let r = Rect::default();
    assert_eq!(r.length, 1);
    assert_eq!(r.width, 1);
    assert_eq!(r.name, "default_name");
    assert_eq!(r.area(), 1);
}

#[test]
fn getters_and_setters_roundtrip() {
    let mut r = Rect::new(5, 9, "Rectangle 2");
    assert_eq!(r.get_length(), 5);
    assert_eq!(r.get_width(), 9);
    assert_eq!(r.get_name(), "Rectangle 2");
    r.set_length(7);
    r.set_width(3);
    r.set_name("renamed");
    assert_eq!(r.get_length(), 7);
    assert_eq!(r.get_width(), 3);
    assert_eq!(r.get_name(), "renamed");
    assert_eq!(r.area(), 21);
}

#[test]
fn from_parses_three_fields() {
    let r = Rect::from("4,5,My Rect");
    assert_eq!(r.length, 4);
    assert_eq!(r.width, 5);
    assert_eq!(r.name, "My Rect");
}

#[test]
fn from_fills_in_missing_fields() {
    let r = Rect::from("12,9");
    assert_eq!((r.length, r.width, r.name), (12, 9, ""));
    let r = Rect::from("7");
    assert_eq!((r.length, r.width, r.name), (7, 0, ""));
}

#[test]
fn from_reads_signs_and_extremes() {
    let r = Rect::from("-3,+4,n");
    assert_eq!((r.length, r.width, r.name), (-3, 4, "n"));
    let r = Rect::from("2147483647,-2147483648,minmax");
    assert_eq!((r.length, r.width, r.name), (i32::MAX, i32::MIN, "minmax"));
}

#[test]
fn from_ignores_fields_past_the_name() {
    let r = Rect::from("10,2,a,b");
    assert_eq!((r.length, r.width, r.name), (10, 2, "a"));
}

#[test]
fn describe_states_name_and_area() {
    let r = Rect::new(12, 9, "Rectangle 1");
    assert_eq!(r.describe(), "My name is Rectangle 1 and my area is 108.");
    let neg = Rect::new(-3, 5, "neg");
    assert_eq!(neg.describe(), "My name is neg and my area is -15.");
    let zero = Rect::new(0, 5, "zero");
    assert_eq!(zero.describe(), "My name is zero and my area is 0.");
}

#[test]
fn equality_compares_areas() {
    let a = Rect::new(2, 6, "a");
    let b = Rect::new(3, 4, "b");
    let c = Rect::new(2, 7, "c");
    assert!(a == b);
    assert!(a != c);
}

#[test]
fn ordering_compares_areas() {
    let small = Rect::new(2, 2, "small");
    let large = Rect::new(3, 4, "large");
    assert_eq!(small.partial_cmp(&large), Some(Ordering::Less));
    assert_eq!(large.partial_cmp(&small), Some(Ordering::Greater));
    assert_eq!(
        small.partial_cmp(&Rect::new(4, 1, "other")),
        Some(Ordering::Equal)
    );
    assert!(small < large);
}
