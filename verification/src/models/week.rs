use vstd::prelude::*;
use vstd::string::*;

verus! {

/// A week relative to the current one. The service resolves it to dates.
#[derive(Debug, Clone, Copy, PartialEq, Eq, Structural)]
pub enum Week {
    Previus,
    Current,
    Next,
}

/// A day of the week.
#[derive(Debug, Clone, Copy, PartialEq, Eq, Structural)]
pub enum Weekday {
    Monday,
    Tuesday,
    Wednessday,
    Thursday,
    Friday,
    Saturday,
    Sunday,
}

/// A day relative to the current one.
#[derive(Debug, Clone, Copy, PartialEq, Eq, Structural)]
pub enum Day {
    Today,
    Tomorrow,
}

impl Week {
    /// The word that selects this week in a query.
    pub open spec fn word(self) -> Seq<char> {
        match self {
            Week::Previus => "previous"@,
            Week::Current => "current"@,
            Week::Next => "next"@,
        }
    }

    /// The word that selects this week in a query.
    pub fn as_str(&self) -> (word: &'static str)
        ensures
            word@ == self.word(),
    {
        match self {
            Week::Previus => "previous",
            Week::Current => "current",
            Week::Next => "next",
        }
    }
}

} // verus!
