//! Leaf helpers: text formatting, the calendar, the date codec, the JSON
//! reader and the clock.

pub mod calendar;
pub mod clock;
pub mod date_serde;
pub mod json;
pub mod text;
