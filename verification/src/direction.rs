//! The direction in which a migration is applied.

use vstd::prelude::*;

verus! {

/// Which half of a migration runs, and whether the ledger gains or loses a tag.
#[derive(Clone, Copy, Debug, PartialEq, Eq, Structural)]
pub enum Direction {
    /// Apply the migration and add its tag to the ledger.
    Up,
    /// Revert the migration and remove its tag from the ledger.
    Down,
}

impl Direction {
    /// The name of the direction as it appears in messages.
    pub open spec fn name(self) -> Seq<char> {
        match self {
            Direction::Up => "Up"@,
            Direction::Down => "Down"@,
        }
    }

    /// Returns `"Up"` or `"Down"`.
    pub fn to_string(&self) -> (text: String)
        ensures
            text@ == self.name(),
    {
        match self {
            Direction::Up => String::from_str("Up"),
            Direction::Down => String::from_str("Down"),
        }
    }
}

} // verus!
