//! The clock: the one place where the crate asks what time it is.

use vstd::prelude::*;
use chrono::{Datelike, Timelike};
use crate::utils::calendar::Timestamp;

verus! {

/// What holds of every reading of the clock: a real day and time of day,
/// in a year from 1970 to 262142.
pub open spec fn is_clock_reading(now: Timestamp) -> bool {
    now.wf() && 1970 <= now.year <= 262142
}

/// Whether `day` is the day after some reading of the clock, at the same
/// time of day.
pub open spec fn follows_clock_reading(day: Timestamp) -> bool {
    exists|now: Timestamp| is_clock_reading(now) && day == #[trigger] now.following_day()
}

/// Reads the current time in UTC with `chrono::Utc::now` and breaks it down
/// with the getters of `chrono::Datelike` and `chrono::Timelike`.
///
/// Trusted: whatever the clock says, the fields name a real day and time of
/// day, and the year is no earlier than 1970 and no later than the last year
/// `chrono` can hold. `chrono` aborts where the system clock is set before
/// 1970.
#[verifier::external_body]
pub(crate) fn utc_now() -> (now: Timestamp)
    ensures
        is_clock_reading(now),
{
    let now = chrono::Utc::now();
    Timestamp {
        year: now.year(),
        month: now.month(),
        day: now.day(),
        hour: now.hour(),
        minute: now.minute(),
        second: now.second(),
    }
}

} // verus!
