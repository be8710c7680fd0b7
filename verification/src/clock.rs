//! The monotonic clock that measures how long a connection lasted.

use vstd::prelude::*;
use tokio::time::Instant;
use std::time::Duration;

verus! {

#[verifier::external_type_specification]
#[verifier::external_body]
pub struct ExInstant(Instant);

/// Calls `tokio::time::Instant::now`. The result is the current time, so nothing is
/// stated of it.
#[verifier::external_body]
pub(crate) fn instant_now() -> (now: Instant) {
    Instant::now()
}

/// Calls `<tokio::time::Instant as Sub>::sub`: the duration from `start` to `end`, zero
/// when `start` is later. `Duration` is opaque here, so nothing is stated of the result.
#[verifier::external_body]
pub(crate) fn duration_between(end: Instant, start: Instant) -> (d: Duration) {
    end - start
}

/// Calls `std::time::Duration::as_millis`: the whole number of milliseconds in `d`.
/// `Duration` is opaque here, so nothing is stated of the result.
#[verifier::external_body]
pub(crate) fn duration_as_millis(d: &Duration) -> (ms: u128) {
    d.as_millis()
}

} // verus!
