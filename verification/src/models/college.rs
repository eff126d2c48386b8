use vstd::prelude::*;
use crate::models::call::Call;
use crate::models::campus::Campus;

verus! {

/// A college: the root of the hierarchy.
#[derive(Debug, Clone)]
pub struct College {
    pub college_id: u32,
    pub name: String,
    pub calls: Vec<Call>,
    pub campuses: Vec<Campus>,
}

/// No two colleges of a catalog share an identifier.
pub open spec fn ids_unique(catalog: Seq<College>) -> bool {
    forall|i: int, j: int|
        0 <= i < j < catalog.len() ==> (#[trigger] catalog[i]).college_id != (
        #[trigger] catalog[j]).college_id
}

impl College {
    /// Every campus nested in the college names this college as its own,
    /// and is itself consistent.
    pub open spec fn wf(&self) -> bool {
        forall|i: int|
            0 <= i < self.campuses@.len() ==> (#[trigger] self.campuses@[i]).college_id
                == self.college_id && self.campuses@[i].wf()
    }

    /// Tells whether every nested campus names this college as its own and
    /// is itself consistent.
    pub fn is_consistent(&self) -> (ok: bool)
        ensures
            ok == self.wf(),
    {
        let mut at: usize = 0;
        while at < self.campuses.len()
            invariant
                at <= self.campuses@.len(),
                forall|i: int|
                    0 <= i < at ==> (#[trigger] self.campuses@[i]).college_id == self.college_id
                        && self.campuses@[i].wf(),
            decreases self.campuses@.len() - at,
        {
            if self.campuses[at].college_id != self.college_id || !self.campuses[at].is_consistent() {
                return false;
            }
            at = at + 1;
        }
        true
    }

    /// Tells whether no two colleges of a catalog share an identifier.
    pub fn catalog_ids_unique(catalog: &Vec<College>) -> (ok: bool)
        ensures
            ok == ids_unique(catalog@),
    {
        let mut upper: usize = 0;
        while upper < catalog.len()
            invariant
                upper <= catalog@.len(),
                forall|i: int, j: int|
                    0 <= i < j < upper ==> (#[trigger] catalog@[i]).college_id != (
                    #[trigger] catalog@[j]).college_id,
            decreases catalog@.len() - upper,
        {
            let mut lower: usize = 0;
            while lower < upper
                invariant
                    lower <= upper < catalog@.len(),
                    forall|i: int|
                        0 <= i < lower ==> (#[trigger] catalog@[i]).college_id
                            != catalog@[upper as int].college_id,
                decreases upper - lower,
            {
                if catalog[lower].college_id == catalog[upper].college_id {
                    return false;
                }
                lower = lower + 1;
            }
            upper = upper + 1;
        }
        true
    }
}

} // verus!
