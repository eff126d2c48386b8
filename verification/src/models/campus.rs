use vstd::prelude::*;
use crate::models::group::Group;

verus! {

/// A site of a college, with the groups that study there.
#[derive(Debug, Clone)]
pub struct Campus {
    pub id: u32,
    pub name: String,
    pub college_id: u32,
    pub groups: Vec<Group>,
}

impl Campus {
    /// Every group nested in the campus names this campus as its own.
    pub open spec fn wf(&self) -> bool {
        forall|i: int|
            0 <= i < self.groups@.len() ==> (#[trigger] self.groups@[i]).campus_id == self.id
    }

    /// Tells whether every nested group names this campus as its own.
    pub fn is_consistent(&self) -> (ok: bool)
        ensures
            ok == self.wf(),
    {
        let mut at: usize = 0;
        while at < self.groups.len()
            invariant
                at <= self.groups@.len(),
                forall|i: int| 0 <= i < at ==> (#[trigger] self.groups@[i]).campus_id == self.id,
            decreases self.groups@.len() - at,
        {
            if self.groups[at].campus_id != self.id {
                return false;
            }
            at = at + 1;
        }
        true
    }
}

} // verus!
