//! The wall clock.

use vstd::prelude::*;

use crate::model::Timestamp;

verus! {

/// Reads the system clock through `chrono::Utc::now` and splits the reading
/// into seconds and nanoseconds with `timestamp` and
/// `timestamp_subsec_nanos`. Nothing is claimed of the value: two readings
/// may differ in either direction. `chrono` panics where the system clock is
/// set before the Unix epoch.
#[verifier::external_body]
pub(crate) fn now() -> (t: Timestamp) {
    let t = chrono::Utc::now();
    Timestamp { secs: t.timestamp(), nanos: t.timestamp_subsec_nanos() }
}

} // verus!
