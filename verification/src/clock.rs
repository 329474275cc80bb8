//! Wall-clock readings, taken through chrono.
//!
//! The rest of the library treats time as data: every time-dependent
//! operation takes the relevant instant as a plain argument, so the logic is
//! verified for every possible clock reading. Only the two functions here
//! actually read the clock.

use vstd::prelude::*;

verus! {

/// Relies on chrono::Utc::now and DateTime::timestamp_millis: the current
/// wall-clock time as whole milliseconds since the Unix epoch. Nothing can
/// be promised about which instant comes back beyond its sign: Utc::now
/// panics if the system clock is set before the Unix epoch, and otherwise
/// returns an instant at or after it.
#[verifier::external_body]
pub fn utc_now_ms() -> (r: i64)
    ensures
        r >= 0,
{
    chrono::Utc::now().timestamp_millis()
}

/// Relies on chrono::Utc::now and DateTime::timestamp_micros: the current
/// wall-clock time as whole microseconds since the Unix epoch, used as
/// identifier material. As with [`utc_now_ms`], only the sign can be
/// promised.
#[verifier::external_body]
pub fn utc_now_us() -> (r: i64)
    ensures
        r >= 0,
{
    chrono::Utc::now().timestamp_micros()
}

} // verus!
