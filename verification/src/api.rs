//! The navigator: one builder per level of the hierarchy. Each narrowing
//! call consumes its builder and gives the next; each terminal call consumes
//! its builder and gives the one request to send.

pub mod colleges;
pub mod groups;
pub mod paths;
pub mod schedules;

pub use colleges::{CampusQuery, CampusesQuery, CollegeQuery, CollegesQuery};
pub use groups::{GroupQuery, GroupsQuery};
pub use schedules::{DateSelection, ScheduleQuery};
