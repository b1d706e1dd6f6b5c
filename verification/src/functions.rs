//! Verified higher-order functions: passing functions as values and calling
//! closures under contract.

use vstd::prelude::*;

verus! {

/// Sum of two 32-bit integers. The caller guarantees that the sum fits.
pub fn add(a: i32, b: i32) -> (r: i32)
    requires
        i32::MIN <= a + b <= i32::MAX,
    ensures
        r == a + b,
{
    a + b
}

/// Applies a binary integer function to the two arguments.
pub fn apply_add<F: Fn(i32, i32) -> i32>(f: F, x: i32, y: i32) -> (z: i32)
    requires
        call_requires(f, (x, y)),
    ensures
        call_ensures(f, (x, y), z),
{
    f(x, y)
}

/// The points of the straight line `y = m * x + c` over the given inputs.
pub fn straight_line_function(m: i32, c: i32, xses: &[i32]) -> (output: Vec<(i32, i32)>)
    requires
        forall|i: int|
            0 <= i < xses@.len() ==> i32::MIN <= #[trigger] (m * xses@[i]) <= i32::MAX
                && i32::MIN <= m * xses@[i] + c <= i32::MAX,
    ensures
        output@.len() == xses@.len(),
        forall|i: int|
            0 <= i < xses@.len() ==> #[trigger] output@[i] == (xses@[i], (m * xses@[i]
                + c) as i32),
{
    let mut output: Vec<(i32, i32)> = Vec::new();
    let n = xses.len();
    let mut i: usize = 0;
    while i < n
        invariant
            n == xses@.len(),
            i <= n,
            forall|j: int|
                0 <= j < xses@.len() ==> i32::MIN <= #[trigger] (m * xses@[j]) <= i32::MAX
                    && i32::MIN <= m * xses@[j] + c <= i32::MAX,
            output@.len() == i,
            forall|j: int|
                0 <= j < i ==> #[trigger] output@[j] == (xses@[j], (m * xses@[j] + c) as i32),
        decreases n - i,
    {
        let x = xses[i];
        let y = (m * x) + c;
        output.push((x, y));
        i = i + 1;
    }
    output
}

/// Calls a function that gives up its captured state, and hands its result
/// back.
pub fn consume<F: FnOnce() -> String>(func: F) -> (r: String)
    requires
        call_requires(func, ()),
    ensures
        call_ensures(func, (), r),
{
    func()
}

/// Applies a function twice: to the argument, then to the first result.
pub fn do_twice<F: Fn(i32) -> i32>(func: F, v: i32) -> (r: i32)
    requires
        call_requires(func, (v,)),
        forall|mid: i32| #[trigger] call_ensures(func, (v,), mid) ==> call_requires(func, (mid,)),
    ensures
        exists|mid: i32|
            #[trigger] call_ensures(func, (v,), mid) && call_ensures(func, (mid,), r),
{
    let mid = func(v);
    func(mid)
}

/// Calls a function on the value one.
pub fn call_with_one<F: Fn(usize) -> usize>(func: F) -> (r: usize)
    requires
        call_requires(func, (1,)),
    ensures
        call_ensures(func, (1,), r),
{
    func(1)
}

/// Exercises the three kinds of function value in turn — one that can be
/// called once, one applied repeatedly, and one read-only — and checks each
/// result against its contract.
pub fn run3() {
    let x = "x".to_owned();
    proof {
        reveal_strlit("x");
    }
    let consume_and_return_x = (move || -> (s: String)
        ensures
            s@ == "x"@,
        { x });
    let consumed = crate::functions::consume(consume_and_return_x);
    assert(consumed@ == "x"@);

    let add_two = (|v: i32| -> (r: i32)
        requires
            i32::MIN + 2 <= v <= i32::MAX - 2,
        ensures
            r == v + 2,
        { v + 2 });
    let five = crate::functions::do_twice(add_two, 1);
    assert(five == 5);

    let double = (|v: usize| -> (r: usize)
        requires
            v <= 1000,
        ensures
            r == 2 * v,
        { 2 * v });
    let two = crate::functions::call_with_one(double);
    assert(two == 2);
}

} // verus!
