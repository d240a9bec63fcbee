//! The two sides of a match and which of them bats.

use vstd::prelude::*;

verus! {

/// One side of the match, known by its name.
#[derive(Debug, Clone, Copy, PartialEq, Eq)]
pub struct Team<'n> {
    pub name: &'n str,
}

/// The two sides of a match: exactly one bats while the other fields.
#[derive(Debug, Clone, Copy, PartialEq, Eq)]
pub struct Teams<'n> {
    pub batting: Team<'n>,
    pub fielding: Team<'n>,
}

impl<'n> Teams<'n> {
    /// The same two sides with their roles exchanged.
    pub open spec fn switched(self) -> Teams<'n> {
        Teams { batting: self.fielding, fielding: self.batting }
    }

    /// The side named first bats, the side named second fields.
    pub fn new(names: [&'n str; 2]) -> (teams: Self)
        ensures
            teams == (Teams { batting: Team { name: names[0] }, fielding: Team { name: names[1] } }),
    {
        Self { batting: Team { name: names[0] }, fielding: Team { name: names[1] } }
    }

    /// Exchanges the two roles in place.
    pub fn switch(&mut self)
        ensures
            *final(self) == old(self).switched(),
    {
        std::mem::swap(&mut self.batting, &mut self.fielding);
    }
}

/// Switching twice gives each side its first role back, and switching once
/// leaves no side with its role or without one.
pub proof fn switching_twice_restores(teams: Teams<'_>)
    ensures
        teams.switched().switched() == teams,
        teams.switched().batting == teams.fielding,
        teams.switched().fielding == teams.batting,
{
}

} // verus!
