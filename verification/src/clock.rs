//! The wall-clock source the cache compares expiry markers against.

use vstd::prelude::*;

verus! {

/// Relies on `std::time::SystemTime::now` and
/// `SystemTime::duration_since(UNIX_EPOCH)`: the duration between the Unix
/// epoch and the current time, taken at millisecond resolution. A clock
/// that reports a time before the epoch is a fatal condition and aborts.
/// Nothing is promised of the result: it depends on the wall clock, and
/// two calls may return anything in any order.
#[verifier::external_body]
fn system_clock_millis() -> u64 {
    std::time::SystemTime::now()
        .duration_since(std::time::UNIX_EPOCH)
        .expect("Time went backwards!")
        .as_millis() as u64
}

/// The current wall-clock time, in milliseconds since the Unix epoch.
///
/// Every operation that consults the clock reads it through this function;
/// the `_at` operations of [`crate::cache::ZCache`] take such a reading as
/// an argument instead, and carry the exact contracts.
pub fn now_in_millis() -> u64 {
    system_clock_millis()
}

} // verus!
