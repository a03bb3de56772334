//! Points in time, and the reading of the clock.

use vstd::prelude::*;

verus! {

/// A point in time: whole seconds since the start of 1970 (UTC), and the
/// nanoseconds since that second began.
#[derive(Clone, Copy, Debug, PartialEq, Eq, Structural)]
pub struct Timestamp {
    pub secs: i64,
    pub nanos: u32,
}

/// The number of nanoseconds in a second.
pub const NANOS_PER_SEC: i64 = 1_000_000_000;

/// The nanoseconds from the start of 1970 to `t`.
pub open spec fn instant(t: Timestamp) -> int {
    t.secs * NANOS_PER_SEC + t.nanos
}

/// The nanoseconds from `earlier` to `later`; negative where `later` comes
/// first.
pub open spec fn elapsed(earlier: Timestamp, later: Timestamp) -> int {
    instant(later) - instant(earlier)
}

/// The nanoseconds from `earlier` to `later`.
pub fn elapsed_nanos(earlier: Timestamp, later: Timestamp) -> (r: i128)
    ensures
        r == elapsed(earlier, later),
{
    let secs: i128 = later.secs as i128 - earlier.secs as i128;
    let nanos: i128 = later.nanos as i128 - earlier.nanos as i128;
    secs * 1_000_000_000 + nanos
}

/// Reads the clock: takes the system's time and lets chrono's conversion
/// from `std::time::SystemTime` to `DateTime<Utc>` make a date of it, which
/// also handles a clock that stands before 1970; then takes the date apart
/// with `DateTime::timestamp` and `DateTime::timestamp_subsec_nanos`. Nothing
/// is claimed of the reading: two calls may give any two values.
#[verifier::external_body]
pub(crate) fn current_time() -> (r: Timestamp) {
    let now = chrono::DateTime::<chrono::Utc>::from(std::time::SystemTime::now());
    Timestamp { secs: now.timestamp(), nanos: now.timestamp_subsec_nanos() }
}

} // verus!
