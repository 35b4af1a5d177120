//! Fresh identifiers and the current time, read from outside the library.
use vstd::prelude::*;

verus! {

/// Relies on `uuid::Uuid::now_v7` (with `Uuid::as_u128`): a new time-ordered
/// identifier, read as its 128-bit big-endian value. Nothing is promised of the
/// value, which depends on the clock and on random bits.
#[verifier::external_body]
pub(crate) fn new_id() -> (r: u128) {
    uuid::Uuid::now_v7().as_u128()
}

/// Relies on `chrono::Utc::now` (with `DateTime::timestamp_micros`): the current
/// time in microseconds since the Unix epoch. `Utc::now` panics on a system time
/// before the epoch, so a returned value is never negative.
#[verifier::external_body]
pub(crate) fn now_micros() -> (r: i64)
    ensures
        r >= 0,
{
    chrono::Utc::now().timestamp_micros()
}

} // verus!
