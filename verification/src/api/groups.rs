//! Builders for groups.

use vstd::prelude::*;
use vstd::string::*;
use crate::api::paths::{group_path, groups_path, write_path};
use crate::api::schedules::{DateSelection, ScheduleQuery};
use crate::client::{Client, Method, Request};
use crate::models::week::Week;
use crate::utils::clock::{follows_clock_reading, is_clock_reading};

verus! {

/// The groups of one campus.
pub struct GroupsQuery<'a> {
    pub client: &'a Client,
    pub campus_id: u32,
}

impl<'a> GroupsQuery<'a> {
    pub fn new(client: &'a Client, campus_id: u32) -> (query: Self)
        ensures
            query.client == client,
            query.campus_id == campus_id,
    {
        Self { client, campus_id }
    }

    /// The path that this builder stands for.
    pub fn path(&self) -> (path: String)
        ensures
            path@ == groups_path(self.campus_id),
    {
        write_path("/campuses/", self.campus_id, "/groups")
    }

    /// The one request of this chain; the answer is a list of groups.
    pub fn send(self) -> (request: Request)
        ensures
            request.method == Method::Get,
            request.url@ == self.client.base_url@ + groups_path(self.campus_id),
            request.body is None,
            request.authorization is None,
    {
        let path = self.path();
        self.client.get_json(path.as_str())
    }

    /// Narrows to one group.
    pub fn group(self, group_id: u32) -> (query: GroupQuery<'a>)
        ensures
            query.client == self.client,
            query.group_id == group_id,
    {
        GroupQuery::new(self.client, group_id)
    }
}

/// One group.
pub struct GroupQuery<'a> {
    pub client: &'a Client,
    pub group_id: u32,
}

impl<'a> GroupQuery<'a> {
    pub fn new(client: &'a Client, group_id: u32) -> (query: Self)
        ensures
            query.client == client,
            query.group_id == group_id,
    {
        Self { client, group_id }
    }

    /// The path that this builder stands for.
    pub fn path(&self) -> (path: String)
        ensures
            path@ == group_path(self.group_id),
    {
        let path = write_path("/groups/", self.group_id, "");
        proof {
            reveal_strlit("");
            assert(path@ =~= group_path(self.group_id));
        }
        path
    }

    /// The one request of this chain; the answer is a group.
    pub fn get(self) -> (request: Request)
        ensures
            request.method == Method::Get,
            request.url@ == self.client.base_url@ + group_path(self.group_id),
            request.body is None,
            request.authorization is None,
    {
        let path = self.path();
        self.client.get_json(path.as_str())
    }

    /// Widens to the schedules of this group, with no date selected yet.
    pub fn schedules(self) -> (query: ScheduleQuery<'a>)
        ensures
            query.client == self.client,
            query.group_id == self.group_id,
            query.selection is Unset,
    {
        ScheduleQuery::new(self.client, self.group_id)
    }

    /// The schedule of this group on the current UTC day.
    pub fn today(self) -> (query: ScheduleQuery<'a>)
        ensures
            query.client == self.client,
            query.group_id == self.group_id,
            query.selection matches DateSelection::Day(day) && is_clock_reading(day),
    {
        self.schedules().today()
    }

    /// The schedule of this group on the day after the current UTC day.
    pub fn tomorrow(self) -> (query: ScheduleQuery<'a>)
        ensures
            query.client == self.client,
            query.group_id == self.group_id,
            query.selection matches DateSelection::Day(day) && day.wf() && follows_clock_reading(
                day,
            ),
    {
        self.schedules().tomorrow()
    }

    /// The schedule of this group on the day that `date` writes.
    pub fn date(self, date: &str) -> (query: ScheduleQuery<'a>)
        ensures
            query.client == self.client,
            query.group_id == self.group_id,
            query.selection matches DateSelection::Date(text) && text@ == date@,
    {
        self.schedules().date(date)
    }

    /// The schedules of this group in a week relative to the current one.
    pub fn week(self, week: Week) -> (query: ScheduleQuery<'a>)
        ensures
            query.client == self.client,
            query.group_id == self.group_id,
            query.selection == DateSelection::Week(week),
    {
        self.schedules().week(week)
    }
}

} // verus!
