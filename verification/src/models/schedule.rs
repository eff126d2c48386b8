use vstd::prelude::*;
use crate::error::Error;
use crate::models::lesson::Lesson;
use crate::utils::calendar::Timestamp;
use crate::utils::date_serde::{decoded, deserialize, is_calendar_date};

verus! {

/// The lessons of one group on one day, in the order the service gave them.
/// The date is kept in its wire form.
#[derive(Debug, Clone)]
pub struct Schedule {
    pub group_id: u32,
    pub date: String,
    pub lessons: Vec<Lesson>,
}

impl Schedule {
    /// The date is in wire form.
    pub open spec fn wf(&self) -> bool {
        is_calendar_date(self.date@)
    }

    /// Puts a schedule together from what a response holds.
    ///
    /// Fails with `MalformedDate`, carrying the date, exactly when the date
    /// is not in wire form: no other way of writing a date is guessed at.
    pub fn new(group_id: u32, date: String, lessons: Vec<Lesson>) -> (result: Result<
        Schedule,
        Error,
    >)
        ensures
            is_calendar_date(date@) ==> result == Ok::<Schedule, Error>(
                Schedule { group_id, date, lessons },
            ),
            !is_calendar_date(date@) ==> (result matches Err(Error::MalformedDate(input))
                && input@ == date@),
            result matches Ok(schedule) ==> schedule.wf(),
    {
        match deserialize(date.as_str()) {
            Ok(_) => Ok(Schedule { group_id, date, lessons }),
            Err(error) => Err(error),
        }
    }

    /// The schedule's day as a timestamp: midnight UTC on its date.
    ///
    /// Fails with `MalformedDate` exactly when the date is not in wire form.
    pub fn day(&self) -> (result: Result<Timestamp, Error>)
        ensures
            is_calendar_date(self.date@) ==> result == Ok::<Timestamp, Error>(decoded(self.date@)),
            !is_calendar_date(self.date@) ==> (result matches Err(Error::MalformedDate(input))
                && input@ == self.date@),
    {
        deserialize(self.date.as_str())
    }
}

} // verus!
