//! The builder for the schedules of a group, and its date selection.

use vstd::prelude::*;
use vstd::string::*;
use crate::api::paths::{schedules_path, write_path};
use crate::client::{Client, Method, Request};
use crate::error::Error;
use crate::models::week::Week;
use crate::utils::calendar::Timestamp;
use crate::utils::clock::{follows_clock_reading, is_clock_reading, utc_now};
use crate::utils::date_serde::{
    decoded,
    deserialize,
    encoded,
    is_calendar_date,
    is_encodable,
    lemma_encode_then_decode,
    no_wire_form,
    serialize,
};

verus! {

/// Which schedules of a group are asked for.
#[derive(Debug, Clone)]
pub enum DateSelection {
    /// No selection: the service decides.
    Unset,
    /// The day that a text in wire form writes.
    Date(String),
    /// The day of a timestamp.
    Day(Timestamp),
    /// A week relative to the current one.
    Week(Week),
}

impl DateSelection {
    /// Whether the selection can be written into a query: a text must be a
    /// date in wire form, a timestamp must have a wire form.
    pub open spec fn is_valid(self) -> bool {
        match self {
            DateSelection::Date(text) => is_calendar_date(text@),
            DateSelection::Day(day) => is_encodable(day),
            _ => true,
        }
    }

    /// What the `MalformedDate` failure carries for a selection that is not
    /// valid: the offending text, or the note that the timestamp has no
    /// wire form.
    pub open spec fn complaint(self) -> Seq<char> {
        match self {
            DateSelection::Date(text) => text@,
            _ => no_wire_form(),
        }
    }

    /// The query part that a valid selection is written as.
    pub open spec fn query(self) -> Seq<char> {
        match self {
            DateSelection::Unset => Seq::empty(),
            DateSelection::Date(text) => "?date="@ + text@,
            DateSelection::Day(day) => "?date="@ + encoded(day),
            DateSelection::Week(week) => "?week="@ + week.word(),
        }
    }
}

/// A selected day that has a wire form is written into the query as a date
/// in wire form, and that date reads back as the selected day at midnight.
/// Every reading of the clock before the year 10000 is such a day.
pub proof fn lemma_selected_day_is_written(day: Timestamp)
    ensures
        is_clock_reading(day) && day.year <= 9999 ==> DateSelection::Day(day).is_valid(),
        DateSelection::Day(day).is_valid() ==> {
            &&& DateSelection::Day(day).query() == "?date="@ + encoded(day)
            &&& is_calendar_date(encoded(day))
            &&& decoded(encoded(day)) == day.at_midnight()
        },
{
    if is_encodable(day) {
        lemma_encode_then_decode(day);
    }
}

/// The schedules of one group.
pub struct ScheduleQuery<'a> {
    pub client: &'a Client,
    pub group_id: u32,
    pub selection: DateSelection,
}

impl<'a> ScheduleQuery<'a> {
    pub fn new(client: &'a Client, group_id: u32) -> (query: Self)
        ensures
            query.client == client,
            query.group_id == group_id,
            query.selection is Unset,
    {
        Self { client, group_id, selection: DateSelection::Unset }
    }

    /// Selects the day of `day`, whatever its time of day.
    pub fn on(self, day: Timestamp) -> (query: Self)
        ensures
            query.client == self.client,
            query.group_id == self.group_id,
            query.selection == DateSelection::Day(day),
    {
        Self { client: self.client, group_id: self.group_id, selection: DateSelection::Day(day) }
    }

    /// Selects the current UTC day, as the clock gives it at this call.
    pub fn today(self) -> (query: Self)
        ensures
            query.client == self.client,
            query.group_id == self.group_id,
            query.selection matches DateSelection::Day(day) && is_clock_reading(day),
    {
        let now = utc_now();
        self.on(now)
    }

    /// Selects the day after the current UTC day, as the clock gives it at
    /// this call.
    pub fn tomorrow(self) -> (query: Self)
        ensures
            query.client == self.client,
            query.group_id == self.group_id,
            query.selection matches DateSelection::Day(day) && day.wf() && follows_clock_reading(
                day,
            ),
    {
        let now = utc_now();
        let day = now.next_day();
        assert(follows_clock_reading(day)) by {
            assert(is_clock_reading(now) && day == now.following_day());
        }
        self.on(day)
    }

    /// Selects the day that `date` writes. The text is checked when the
    /// chain ends.
    pub fn date(self, date: &str) -> (query: Self)
        ensures
            query.client == self.client,
            query.group_id == self.group_id,
            query.selection matches DateSelection::Date(text) && text@ == date@,
    {
        Self {
            client: self.client,
            group_id: self.group_id,
            selection: DateSelection::Date(String::from_str(date)),
        }
    }

    /// Selects a week relative to the current one.
    pub fn week(self, week: Week) -> (query: Self)
        ensures
            query.client == self.client,
            query.group_id == self.group_id,
            query.selection == DateSelection::Week(week),
    {
        Self { client: self.client, group_id: self.group_id, selection: DateSelection::Week(week) }
    }

    /// The path and query that this builder stands for.
    ///
    /// Fails with `MalformedDate` exactly when the selection cannot be
    /// written as a date in wire form.
    pub fn path(&self) -> (result: Result<String, Error>)
        ensures
            self.selection.is_valid() ==> (result matches Ok(path) && path@ == schedules_path(
                self.group_id,
            ) + self.selection.query()),
            !self.selection.is_valid() ==> (result matches Err(Error::MalformedDate(message))
                && message@ == self.selection.complaint()),
    {
        let mut path = write_path("/groups/", self.group_id, "/schedules");
        match &self.selection {
            DateSelection::Unset => {},
            DateSelection::Date(text) => {
                match deserialize(text.as_str()) {
                    Ok(_) => {
                        path.append("?date=");
                        path.append(text.as_str());
                    },
                    Err(error) => {
                        return Err(error);
                    },
                }
            },
            DateSelection::Day(day) => {
                match serialize(day) {
                    Ok(text) => {
                        path.append("?date=");
                        path.append(text.as_str());
                    },
                    Err(error) => {
                        return Err(error);
                    },
                }
            },
            DateSelection::Week(week) => {
                path.append("?week=");
                path.append(week.as_str());
            },
        }
        assert(path@ =~= schedules_path(self.group_id) + self.selection.query());
        Ok(path)
    }

    /// The one request of this chain; the answer is a list of schedules.
    ///
    /// Fails with `MalformedDate`, and gives no request, exactly when the
    /// selection cannot be written as a date in wire form.
    pub fn send(self) -> (result: Result<Request, Error>)
        ensures
            self.selection.is_valid() ==> (result matches Ok(request) && request.method
                == Method::Get && request.url@ == self.client.base_url@ + (schedules_path(
                self.group_id,
            ) + self.selection.query()) && request.body is None && request.authorization is None),
            !self.selection.is_valid() ==> (result matches Err(Error::MalformedDate(message))
                && message@ == self.selection.complaint()),
    {
        match self.path() {
            Ok(path) => Ok(self.client.get_json(path.as_str())),
            Err(error) => Err(error),
        }
    }
}

} // verus!
