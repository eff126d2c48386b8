use vstd::prelude::*;

verus! {

/// A student group of a campus: the unit that a schedule is asked for.
#[derive(Debug, Clone)]
pub struct Group {
    pub id: u32,
    pub name: String,
    pub campus_id: u32,
}

} // verus!
