use vstd::prelude::*;
use crate::utils::calendar::Timestamp;

verus! {

/// One bell period of a college: when a lesson slot begins and ends on a
/// given weekday.
#[derive(Debug, Clone)]
pub struct Call {
    pub call_id: u32,
    pub weekday: u8,
    pub begins: Timestamp,
    pub ends: Timestamp,
    pub order: u32,
}

} // verus!
