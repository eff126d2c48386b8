//! The paths of the service, as texts, and the functions that write them.

use vstd::prelude::*;
use vstd::string::*;
use crate::utils::text::{decimal, percent_encode, percent_encoded, push_decimal};

verus! {

/// The query part for a name filter: nothing when no name is set or the
/// name is empty, else `?name=` and the percent-encoded name.
pub open spec fn name_query(name: Option<String>) -> Seq<char> {
    match name {
        Some(text) => if text@.len() == 0 {
            Seq::empty()
        } else {
            "?name="@ + percent_encoded(text@)
        },
        None => Seq::empty(),
    }
}

/// `/colleges`, with the name filter if one is set.
pub open spec fn colleges_path(name: Option<String>) -> Seq<char> {
    "/colleges"@ + name_query(name)
}

/// `/colleges/{id}`.
pub open spec fn college_path(college_id: u32) -> Seq<char> {
    "/colleges/"@ + decimal(college_id as nat)
}

/// `/colleges/{id}/campuses`, with the name filter if one is set.
pub open spec fn campuses_path(college_id: u32, name: Option<String>) -> Seq<char> {
    "/colleges/"@ + decimal(college_id as nat) + "/campuses"@ + name_query(name)
}

/// `/campuses/{id}`.
pub open spec fn campus_path(campus_id: u32) -> Seq<char> {
    "/campuses/"@ + decimal(campus_id as nat)
}

/// `/campuses/{id}/groups`.
pub open spec fn groups_path(campus_id: u32) -> Seq<char> {
    "/campuses/"@ + decimal(campus_id as nat) + "/groups"@
}

/// `/groups/{id}`.
pub open spec fn group_path(group_id: u32) -> Seq<char> {
    "/groups/"@ + decimal(group_id as nat)
}

/// `/groups/{id}/schedules`, before any query part.
pub open spec fn schedules_path(group_id: u32) -> Seq<char> {
    "/groups/"@ + decimal(group_id as nat) + "/schedules"@
}

/// Writes `prefix`, the decimal numeral of `id`, then `suffix`.
pub fn write_path(prefix: &str, id: u32, suffix: &str) -> (path: String)
    ensures
        path@ == prefix@ + decimal(id as nat) + suffix@,
{
    let mut path = String::from_str(prefix);
    push_decimal(&mut path, id);
    path.append(suffix);
    path
}

/// Appends the query part for a name filter.
pub fn push_name_query(path: &mut String, name: &Option<String>)
    ensures
        final(path)@ == old(path)@ + name_query(*name),
{
    match name {
        Some(text) => {
            if text.as_str().unicode_len() != 0 {
                let encoded = percent_encode(text.as_str());
                path.append("?name=");
                path.append(encoded.as_str());
                assert(path@ =~= old(path)@ + name_query(*name));
            } else {
                assert(path@ =~= old(path)@ + name_query(*name));
            }
        },
        None => {
            assert(path@ =~= old(path)@ + name_query(*name));
        },
    }
}

} // verus!
