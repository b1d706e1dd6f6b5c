use fbtext::functions;

#[test]
fn add_sums() {
    assert_eq!(functions::add(7, 8), 15);
    assert_eq!(functions::add(-3, 3), 0);
}

#[test]
fn apply_add_applies() {
    let z = functions::apply_add(functions::add, 7, 8);
    assert_eq!(z, 15);
}

#[test]
fn straight_line_points() {
    let xses = [1, 2, 3, 4, 5];
    let output = functions::straight_line_function(20, 10, &xses);
    assert_eq!(output, vec![(1, 30), (2, 50), (3, 70), (4, 90), (5, 110)]);
}

#[test]
fn consume_hands_result_back() {
    let x = String::from("x");
    let consume_and_return_x = move || x;
    assert_eq!(functions::consume(consume_and_return_x), "x");
}

#[test]
fn do_twice_applies_twice() {
    assert_eq!(functions::do_twice(|v| v + 2, 1), 5);
}

#[test]
fn call_with_one_passes_one() {
    let double = |v: usize| v * 2;
    assert_eq!(functions::call_with_one(double), 2);
}

#[test]
fn run3_checks_out() {
    functions::run3();
}
