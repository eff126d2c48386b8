//! Client-side query builder and response pipeline for a hierarchical
//! scheduling service: colleges own campuses, campuses own student groups,
//! and groups have schedules of lessons on calendar dates.
//!
//! The crate decides *what* to request and *how to read* what came back; the
//! transport itself is left to the caller. A chain of builders produces a
//! [`Request`], and [`Client::handle_response`] turns a status and a raw body
//! into the text to decode or into a classified [`Error`].

pub mod api;
pub mod auth;
pub mod client;
pub mod error;
pub mod models;
pub mod utils;

pub use api::{
    CampusQuery, CampusesQuery, CollegeQuery, CollegesQuery, DateSelection, GroupQuery,
    GroupsQuery, ScheduleQuery,
};
pub use auth::{Auth, AuthenticatedClient};
pub use client::{Client, Method, Request};
pub use error::{Error, HttpErrorKind};
pub use models::{Call, Campus, College, Day, Group, Lesson, Schedule, Week, Weekday};
pub use utils::calendar::Timestamp;
