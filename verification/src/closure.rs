//! Functions that take closures and functions that make them.

use vstd::prelude::*;

verus! {

/// Applies `f` to `val`.
pub fn apply_to_value<F>(val: i32, f: F) -> (result: i32) where F: Fn(i32) -> i32
    requires
        f.requires((val,)),
    ensures
        f.ensures((val,), result),
{
    f(val)
}

/// A function that adds `x` to its argument. It can be called with every
/// argument whose sum with `x` is a 32-bit integer.
pub fn make_adder_1(x: i32) -> (adder: impl Fn(i32) -> i32)
    ensures
        forall|y: i32| i32::MIN <= x + y <= i32::MAX ==> #[trigger] adder.requires((y,)),
        forall|y: i32, sum: i32| #[trigger] adder.ensures((y,), sum) ==> sum == x + y,
{
    move |y: i32| -> (sum: i32)
        requires
            i32::MIN <= x + y <= i32::MAX,
        ensures
            sum == x + y,
        { x + y }
}

/// Calls `f`, once.
pub fn call_closure<F>(f: F) where F: FnOnce()
    requires
        f.requires(()),
    ensures
        f.ensures((), ()),
{
    f()
}

} // verus!
