//! The wall clock. A point in time is an `i64`: microseconds since the Unix
//! epoch, in UTC.

use vstd::prelude::*;

verus! {

/// Microseconds in one hour.
pub const MICROS_PER_HOUR: i64 = 3_600_000_000;

/// Microseconds in one day.
pub const MICROS_PER_DAY: i64 = 86_400_000_000;

/// `chrono::Utc::now`, read as microseconds since the Unix epoch.
///
/// Nothing is claimed of the value: it is whatever the system clock says, and
/// two calls may give any two values. The call aborts where the system clock
/// stands before the year 1970.
#[verifier::external_body]
pub(crate) fn now_micros() -> i64 {
    chrono::Utc::now().timestamp_micros()
}

} // verus!
