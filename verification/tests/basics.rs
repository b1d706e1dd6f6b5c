use fbtext::basics;

#[test]
fn it_works() {
    let result = basics::add(2, 2);
    assert_eq!(result, 4);
}

#[test]
fn greeting_text() {
    assert_eq!(basics::greeting_from_lib(), "Hello from lib");
}

#[test]
fn reverse_swaps() {
    assert_eq!(basics::reverse((1, true)), (true, 1));
    assert_eq!(basics::reverse((-7, false)), (false, -7));
}
