//! The one thing the simulation asks of a span of time: its length.

use std::time::Duration;
use vstd::prelude::*;

verus! {

/// The length of `d` in whole nanoseconds.
pub uninterp spec fn nanoseconds(d: Duration) -> u128;

/// Calls `Duration::as_nanos`, which returns the total number of nanoseconds
/// that the duration holds. Nothing is proved of the call: [`nanoseconds`] is
/// the name of what it returns.
#[verifier::external_body]
pub(crate) fn length_in_nanoseconds(d: &Duration) -> (n: u128)
    ensures
        n == nanoseconds(*d),
{
    d.as_nanos()
}

} // verus!
