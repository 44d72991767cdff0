//! Host-supplied callbacks invoked synchronously inside the boundary, and
//! the trivial probe call.
//!
//! A callback is a plain function value with a fixed, documented signature;
//! no value ownership moves through it, and its own contract is all that is
//! known of what it returns. The sample signatures carry no user-data
//! parameter, so a callback cannot smuggle state — a documented limitation.

use vstd::prelude::*;

verus! {

/// The fixed probe value the boundary answers with.
pub fn leet() -> (r: i32)
    ensures
        r == 1337,
{
    1337
}

/// Invoke the host's callback once, with the two fixed sample operands, and
/// return whatever it computes.
pub fn callback<F: Fn(i64, i64) -> i64>(func: F) -> (r: i64)
    requires
        call_requires(func, (13i64, 37i64)),
    ensures
        call_ensures(func, (13i64, 37i64), r),
{
    let a: i64 = 13;
    let b: i64 = 37;
    func(a, b)
}

} // verus!
