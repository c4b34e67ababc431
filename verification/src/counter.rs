//! The counter service used to exercise the transports.

use vstd::prelude::*;

verus! {

/// A service that adds two numbers.
pub trait SyncCounter {
    fn sum(&self, a: i32, b: i32) -> i32;
}

/// The server side of the counter service.
pub struct CounterServerImpl;

impl CounterServerImpl {
    /// The answer to `sum`; the sum must fit in an `i32`.
    pub fn sum(&self, _ctx: (), a: i32, b: i32) -> (total: i32)
        requires
            i32::MIN <= a + b <= i32::MAX,
        ensures
            total == a + b,
    {
        a + b
    }

    /// The answer to `sum_async`; the sum must fit in an `i32`.
    pub fn sum_async(&self, _ctx: (), a: i32, b: i32) -> (total: i32)
        requires
            i32::MIN <= a + b <= i32::MAX,
        ensures
            total == a + b,
    {
        a + b
    }
}

} // verus!
