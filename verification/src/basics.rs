//! Small standalone verified functions: saturating-free addition, a fixed
//! greeting, and a tuple swap.

use vstd::prelude::*;

verus! {

/// Sum of two machine-word integers. The caller guarantees that the sum fits.
pub fn add(left: usize, right: usize) -> (r: usize)
    requires
        left + right <= usize::MAX,
    ensures
        r == left + right,
{
    left + right
}

/// The library's greeting line, always the same text.
pub fn greeting_from_lib() -> (message: String)
    ensures
        message@ == "Hello from lib"@,
{
    let message = "Hello from lib".to_owned();
    message
}

/// Swaps the members of a pair.
pub fn reverse(pair: (i32, bool)) -> (r: (bool, i32))
    ensures
        r.0 == pair.1,
        r.1 == pair.0,
{
    let (int_param, bool_param) = pair;
    (bool_param, int_param)
}

} // verus!
