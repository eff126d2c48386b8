//! The root client: where the service lives, which college is the default,
//! how a request is put together and how a response is read.

use vstd::prelude::*;
use vstd::string::*;
use crate::api::colleges::{CampusQuery, CampusesQuery, CollegeQuery, CollegesQuery};
use crate::api::groups::GroupsQuery;
use crate::api::schedules::{DateSelection, ScheduleQuery};
use crate::auth::{Auth, AuthenticatedClient};
use crate::error::{is_success, kind_of_status, status_is_success, Error};
use crate::utils::clock::{follows_clock_reading, is_clock_reading};
use crate::utils::json::{diagnose_json, json_diagnostic};

verus! {

/// The verb of a request.
#[derive(Debug, Clone, Copy, PartialEq, Eq, Structural)]
pub enum Method {
    Get,
    Post,
    Delete,
}

/// One request, ready for a transport to send exactly once.
#[derive(Debug, Clone, PartialEq, Eq)]
pub struct Request {
    pub method: Method,
    pub url: String,
    pub body: Option<String>,
    pub authorization: Option<String>,
}

/// A client for the schedule service.
///
/// It holds the base URL, fixed when it is made, and at most one default
/// college.
#[derive(Debug, Clone)]
pub struct Client {
    pub base_url: String,
    pub default_college_id: Option<u32>,
}

/// Whether a success response stands for "done, nothing to report": an
/// empty body in answer to a POST or DELETE.
pub open spec fn is_no_content(method: Method, raw_body: Seq<char>) -> bool {
    method != Method::Get && raw_body.len() == 0
}

/// What the `Validation` failure says when an operation needs the default
/// college and none is set.
pub open spec fn missing_default_college() -> Seq<char> {
    "No default college set. Use client.with_college() first"@
}

impl Client {
    /// The base URL that every path is appended to.
    pub fn base_url(&self) -> (url: &str)
        ensures
            url@ == self.base_url@,
    {
        self.base_url.as_str()
    }

    /// A client for the service at `base_url`, with no default college.
    pub fn new(base_url: &str) -> (client: Client)
        ensures
            client.base_url@ == base_url@,
            client.default_college_id is None,
    {
        Client { base_url: String::from_str(base_url), default_college_id: None }
    }

    /// The same client with `college_id` as its default college.
    pub fn with_college(self, college_id: u32) -> (client: Client)
        ensures
            client.base_url == self.base_url,
            client.default_college_id == Some(college_id),
    {
        Client { base_url: self.base_url, default_college_id: Some(college_id) }
    }

    /// A query for the list of all colleges.
    pub fn colleges(&self) -> (query: CollegesQuery<'_>)
        ensures
            query.client == self,
            query.name is None,
    {
        CollegesQuery::new(self)
    }

    /// The default college, or the `Validation` failure that every
    /// operation on the default college reports when none is set.
    pub fn default_college(&self) -> (result: Result<u32, Error>)
        ensures
            self.default_college_id matches Some(id) ==> result == Ok::<u32, Error>(id),
            self.default_college_id is None ==> (result matches Err(Error::Validation(message))
                && message@ == missing_default_college()),
    {
        match self.default_college_id {
            Some(id) => Ok(id),
            None => Err(
                Error::Validation(
                    String::from_str("No default college set. Use client.with_college() first"),
                ),
            ),
        }
    }

    /// A query for the default college.
    ///
    /// Fails with `Validation`, before any request is built, exactly when no
    /// default college is set.
    pub fn college(&self) -> (result: Result<CollegeQuery<'_>, Error>)
        ensures
            self.default_college_id matches Some(id) ==> (result matches Ok(query) && query.client
                == self && query.college_id == id),
            self.default_college_id is None ==> (result matches Err(Error::Validation(message))
                && message@ == missing_default_college()),
    {
        match self.default_college() {
            Ok(college_id) => Ok(CollegeQuery::new(self, college_id)),
            Err(error) => Err(error),
        }
    }

    /// A query for the campuses of the default college.
    ///
    /// Fails with `Validation`, before any request is built, exactly when no
    /// default college is set.
    pub fn campuses(&self) -> (result: Result<CampusesQuery<'_>, Error>)
        ensures
            self.default_college_id matches Some(id) ==> (result matches Ok(query) && query.client
                == self && query.college_id == id && query.name is None),
            self.default_college_id is None ==> (result matches Err(Error::Validation(message))
                && message@ == missing_default_college()),
    {
        match self.default_college() {
            Ok(college_id) => Ok(CampusesQuery::new(self, college_id)),
            Err(error) => Err(error),
        }
    }

    /// A query for one campus, in the scope of the default college.
    ///
    /// Fails with `Validation`, before any request is built, exactly when no
    /// default college is set.
    pub fn campus(&self, campus_id: u32) -> (result: Result<CampusQuery<'_>, Error>)
        ensures
            self.default_college_id is Some ==> (result matches Ok(query) && query.client == self
                && query.campus_id == campus_id),
            self.default_college_id is None ==> (result matches Err(Error::Validation(message))
                && message@ == missing_default_college()),
    {
        match self.default_college() {
            Ok(_) => Ok(CampusQuery::new(self, campus_id)),
            Err(error) => Err(error),
        }
    }

    /// The full URL of a path: the base URL followed by the path.
    pub fn url(&self, path: &str) -> (url: String)
        ensures
            url@ == self.base_url@ + path@,
    {
        self.base_url.clone().concat(path)
    }

    /// The GET request for `path`. It never carries a credential or a body.
    pub fn get_json(&self, path: &str) -> (request: Request)
        ensures
            request.method == Method::Get,
            request.url@ == self.base_url@ + path@,
            request.body is None,
            request.authorization is None,
    {
        Request { method: Method::Get, url: self.url(path), body: None, authorization: None }
    }

    /// The POST request for `path`, with the given body and, where a
    /// credential is given, with it attached.
    pub fn post_json(&self, path: &str, body: Option<String>, auth: Option<&Auth>) -> (request:
        Request)
        ensures
            request.method == Method::Post,
            request.url@ == self.base_url@ + path@,
            request.body == body,
            auth is None ==> request.authorization is None,
            auth matches Some(a) ==> (request.authorization matches Some(value) && value@
                == a.header()),
    {
        let request = Request { method: Method::Post, url: self.url(path), body, authorization: None };
        match auth {
            Some(auth) => auth.apply_to_request(request),
            None => request,
        }
    }

    /// The DELETE request for `path`, with the credential attached where one
    /// is given.
    pub fn delete_json(&self, path: &str, auth: Option<&Auth>) -> (request: Request)
        ensures
            request.method == Method::Delete,
            request.url@ == self.base_url@ + path@,
            request.body is None,
            auth is None ==> request.authorization is None,
            auth matches Some(a) ==> (request.authorization matches Some(value) && value@
                == a.header()),
    {
        let request = Request {
            method: Method::Delete,
            url: self.url(path),
            body: None,
            authorization: None,
        };
        match auth {
            Some(auth) => auth.apply_to_request(request),
            None => request,
        }
    }

    /// Decides on a success body once the JSON reader has looked at it: the
    /// body itself where the reader had no complaint, else the `Decode`
    /// failure that keeps the body and the complaint.
    pub fn accept_body(raw_body: String, fault: Option<String>) -> (result: Result<String, Error>)
        ensures
            fault is None ==> result == Ok::<String, Error>(raw_body),
            fault matches Some(diagnostic) ==> result == Err::<String, Error>(
                Error::Decode { raw_body, diagnostic },
            ),
    {
        match fault {
            None => Ok(raw_body),
            Some(diagnostic) => Err(Error::decode_failure(raw_body, diagnostic)),
        }
    }

    /// Reads a response that the transport brought back.
    ///
    /// For any status but a success the result is the classified `Http`
    /// failure with the body as it came; the body is not looked into. For a
    /// success the result is the JSON text to decode: `null` for an empty
    /// body in answer to a POST or DELETE, else the body itself, provided
    /// that the JSON reader accepts it; where it does not, the result is the
    /// `Decode` failure with the body and the reader's complaint.
    pub fn handle_response(&self, method: Method, status: u16, raw_body: String) -> (result: Result<
        String,
        Error,
    >)
        ensures
            !is_success(status) ==> result == Err::<String, Error>(
                Error::Http { status, kind: kind_of_status(status), raw_body },
            ),
            is_success(status) && is_no_content(method, raw_body@) ==> (result matches Ok(text)
                && text@ == "null"@),
            is_success(status) && !is_no_content(method, raw_body@) && json_diagnostic(raw_body@)
                is None ==> result == Ok::<String, Error>(raw_body),
            is_success(status) && !is_no_content(method, raw_body@) && json_diagnostic(raw_body@)
                is Some ==> (result matches Err(Error::Decode { raw_body: kept, diagnostic })
                && kept == raw_body && json_diagnostic(raw_body@) == Some(diagnostic@)),
    {
        if !status_is_success(status) {
            return Err(Error::from_response(status, raw_body));
        }
        let empty = raw_body.as_str().unicode_len() == 0;
        let no_content = match method {
            Method::Get => false,
            _ => empty,
        };
        if no_content {
            Ok(String::from_str("null"))
        } else {
            let fault = diagnose_json(raw_body.as_str());
            Client::accept_body(raw_body, fault)
        }
    }

    /// A query for the groups of a campus.
    pub fn groups(&self, campus_id: u32) -> (query: GroupsQuery<'_>)
        ensures
            query.client == self,
            query.campus_id == campus_id,
    {
        GroupsQuery::new(self, campus_id)
    }

    /// A query for the schedules of a group, with no date selected yet.
    pub fn schedule(&self, group_id: u32) -> (query: ScheduleQuery<'_>)
        ensures
            query.client == self,
            query.group_id == group_id,
            query.selection is Unset,
    {
        ScheduleQuery::new(self, group_id)
    }

    /// A query for the schedule of a group on the current UTC day.
    pub fn today(&self, group_id: u32) -> (query: ScheduleQuery<'_>)
        ensures
            query.client == self,
            query.group_id == group_id,
            query.selection matches DateSelection::Day(day) && is_clock_reading(day),
    {
        self.schedule(group_id).today()
    }

    /// A query for the schedule of a group on the day after the current UTC
    /// day.
    pub fn tomorrow(&self, group_id: u32) -> (query: ScheduleQuery<'_>)
        ensures
            query.client == self,
            query.group_id == group_id,
            query.selection matches DateSelection::Day(day) && day.wf() && follows_clock_reading(
                day,
            ),
    {
        self.schedule(group_id).tomorrow()
    }

    /// This client with room for a credential, for the endpoints that
    /// change state.
    pub fn authenticated(&self) -> (made: AuthenticatedClient)
        ensures
            made.client.base_url == self.base_url,
            made.client.default_college_id == self.default_college_id,
            made.auth is None,
    {
        AuthenticatedClient::new(
            Client {
                base_url: self.base_url.clone(),
                default_college_id: self.default_college_id,
            },
        )
    }
}

} // verus!
