//! Builders for colleges and campuses.

use vstd::prelude::*;
use vstd::string::*;
use crate::api::groups::{GroupQuery, GroupsQuery};
use crate::api::paths::{
    campus_path,
    campuses_path,
    college_path,
    colleges_path,
    push_name_query,
    write_path,
};
use crate::client::{Client, Method, Request};

verus! {

/// The list of all colleges, optionally filtered by name.
pub struct CollegesQuery<'a> {
    pub client: &'a Client,
    pub name: Option<String>,
}

impl<'a> CollegesQuery<'a> {
    pub fn new(client: &'a Client) -> (query: Self)
        ensures
            query.client == client,
            query.name is None,
    {
        Self { client, name: None }
    }

    /// Keeps only the colleges of this name.
    pub fn name(self, name: &str) -> (query: Self)
        ensures
            query.client == self.client,
            query.name matches Some(text) && text@ == name@,
    {
        Self { client: self.client, name: Some(String::from_str(name)) }
    }

    /// The path and query that this builder stands for.
    pub fn path(&self) -> (path: String)
        ensures
            path@ == colleges_path(self.name),
    {
        let mut path = String::from_str("/colleges");
        push_name_query(&mut path, &self.name);
        path
    }

    /// The one request of this chain; the answer is a list of colleges.
    pub fn send(self) -> (request: Request)
        ensures
            request.method == Method::Get,
            request.url@ == self.client.base_url@ + colleges_path(self.name),
            request.body is None,
            request.authorization is None,
    {
        let path = self.path();
        self.client.get_json(path.as_str())
    }

    /// Narrows to one college.
    pub fn college(self, college_id: u32) -> (query: CollegeQuery<'a>)
        ensures
            query.client == self.client,
            query.college_id == college_id,
    {
        CollegeQuery::new(self.client, college_id)
    }
}

/// One college.
pub struct CollegeQuery<'a> {
    pub client: &'a Client,
    pub college_id: u32,
}

impl<'a> CollegeQuery<'a> {
    pub fn new(client: &'a Client, college_id: u32) -> (query: Self)
        ensures
            query.client == client,
            query.college_id == college_id,
    {
        Self { client, college_id }
    }

    /// The path that this builder stands for.
    pub fn path(&self) -> (path: String)
        ensures
            path@ == college_path(self.college_id),
    {
        let path = write_path("/colleges/", self.college_id, "");
        proof {
            reveal_strlit("");
            assert(path@ =~= college_path(self.college_id));
        }
        path
    }

    /// The one request of this chain; the answer is a college.
    pub fn get(self) -> (request: Request)
        ensures
            request.method == Method::Get,
            request.url@ == self.client.base_url@ + college_path(self.college_id),
            request.body is None,
            request.authorization is None,
    {
        let path = self.path();
        self.client.get_json(path.as_str())
    }

    /// Widens to the campuses of this college.
    pub fn campuses(self) -> (query: CampusesQuery<'a>)
        ensures
            query.client == self.client,
            query.college_id == self.college_id,
            query.name is None,
    {
        CampusesQuery::new(self.client, self.college_id)
    }

    /// Narrows to one campus.
    pub fn campus(self, campus_id: u32) -> (query: CampusQuery<'a>)
        ensures
            query.client == self.client,
            query.campus_id == campus_id,
    {
        CampusQuery::new(self.client, campus_id)
    }
}

/// The campuses of one college, optionally filtered by name.
pub struct CampusesQuery<'a> {
    pub client: &'a Client,
    pub college_id: u32,
    pub name: Option<String>,
}

impl<'a> CampusesQuery<'a> {
    pub fn new(client: &'a Client, college_id: u32) -> (query: Self)
        ensures
            query.client == client,
            query.college_id == college_id,
            query.name is None,
    {
        Self { client, college_id, name: None }
    }

    /// Keeps only the campuses of this name.
    pub fn name(self, name: &str) -> (query: Self)
        ensures
            query.client == self.client,
            query.college_id == self.college_id,
            query.name matches Some(text) && text@ == name@,
    {
        Self { client: self.client, college_id: self.college_id, name: Some(String::from_str(name)) }
    }

    /// The path and query that this builder stands for.
    pub fn path(&self) -> (path: String)
        ensures
            path@ == campuses_path(self.college_id, self.name),
    {
        let mut path = write_path("/colleges/", self.college_id, "/campuses");
        push_name_query(&mut path, &self.name);
        path
    }

    /// The one request of this chain; the answer is a list of campuses.
    pub fn send(self) -> (request: Request)
        ensures
            request.method == Method::Get,
            request.url@ == self.client.base_url@ + campuses_path(self.college_id, self.name),
            request.body is None,
            request.authorization is None,
    {
        let path = self.path();
        self.client.get_json(path.as_str())
    }

    /// Narrows to one campus.
    pub fn campus(self, campus_id: u32) -> (query: CampusQuery<'a>)
        ensures
            query.client == self.client,
            query.campus_id == campus_id,
    {
        CampusQuery::new(self.client, campus_id)
    }
}

/// One campus.
pub struct CampusQuery<'a> {
    pub client: &'a Client,
    pub campus_id: u32,
}

impl<'a> CampusQuery<'a> {
    pub fn new(client: &'a Client, campus_id: u32) -> (query: Self)
        ensures
            query.client == client,
            query.campus_id == campus_id,
    {
        Self { client, campus_id }
    }

    /// The path that this builder stands for.
    pub fn path(&self) -> (path: String)
        ensures
            path@ == campus_path(self.campus_id),
    {
        let path = write_path("/campuses/", self.campus_id, "");
        proof {
            reveal_strlit("");
            assert(path@ =~= campus_path(self.campus_id));
        }
        path
    }

    /// The one request of this chain; the answer is a campus.
    pub fn get(self) -> (request: Request)
        ensures
            request.method == Method::Get,
            request.url@ == self.client.base_url@ + campus_path(self.campus_id),
            request.body is None,
            request.authorization is None,
    {
        let path = self.path();
        self.client.get_json(path.as_str())
    }

    /// Widens to the groups of this campus.
    pub fn groups(self) -> (query: GroupsQuery<'a>)
        ensures
            query.client == self.client,
            query.campus_id == self.campus_id,
    {
        GroupsQuery::new(self.client, self.campus_id)
    }

    /// Narrows to one group.
    pub fn group(self, group_id: u32) -> (query: GroupQuery<'a>)
        ensures
            query.client == self.client,
            query.group_id == group_id,
    {
        GroupQuery::new(self.client, group_id)
    }
}

} // verus!
