//! Random outcomes: the side a coin lands on and the role a side takes first.
//!
//! Each outcome is decided by one fair random bit. The bit comes from the
//! thread-local generator of the `rand` crate; what is made of it is decided
//! here.

use vstd::prelude::*;

verus! {

/// A side of the coin.
#[derive(Debug, Clone, Copy, PartialEq, Eq, Structural)]
pub enum CoinSide {
    Heads,
    Tails,
}

/// What a side does first.
#[derive(Debug, Clone, Copy, PartialEq, Eq, Structural)]
pub enum Role {
    Batting,
    Fielding,
}

/// Draws one random bit.
///
/// Calls `rand::random::<bool>()`, which samples the sign bit of the next
/// 32-bit word of the thread-local generator. Nothing is claimed of the bit:
/// two draws may differ. The call panics if the operating system cannot seed
/// the generator, which no argument could prevent.
#[verifier::external_body]
pub(crate) fn draw_bit() -> bool {
    rand::random::<bool>()
}

impl CoinSide {
    /// The side that a drawn bit stands for.
    pub open spec fn of_draw(draw: bool) -> CoinSide {
        if draw {
            CoinSide::Heads
        } else {
            CoinSide::Tails
        }
    }

    /// Turns a drawn bit into a side: a set bit is heads, a clear bit tails.
    pub fn from_draw(draw: bool) -> (side: CoinSide)
        ensures
            side == Self::of_draw(draw),
    {
        if draw {
            CoinSide::Heads
        } else {
            CoinSide::Tails
        }
    }

    /// Tosses a fair coin.
    pub fn random() -> CoinSide {
        Self::from_draw(draw_bit())
    }

    /// The name of the side, as shown to the player.
    pub fn to_string(self) -> (name: String)
        ensures
            self == CoinSide::Heads ==> name@ == "Heads"@,
            self == CoinSide::Tails ==> name@ == "Tails"@,
    {
        match self {
            CoinSide::Heads => "Heads".to_owned(),
            CoinSide::Tails => "Tails".to_owned(),
        }
    }
}

impl Role {
    /// The role that a drawn bit stands for.
    pub open spec fn of_draw(draw: bool) -> Role {
        if draw {
            Role::Batting
        } else {
            Role::Fielding
        }
    }

    /// Turns a drawn bit into a role: a set bit is batting, a clear bit
    /// fielding.
    pub fn from_draw(draw: bool) -> (role: Role)
        ensures
            role == Self::of_draw(draw),
    {
        if draw {
            Role::Batting
        } else {
            Role::Fielding
        }
    }

    /// Picks one of the two roles, each with the same chance.
    pub fn random() -> Role {
        Self::from_draw(draw_bit())
    }
}

/// Both values of each outcome can be drawn, and each by one bit only.
pub proof fn draws_are_onto_and_one_to_one(first: bool, second: bool)
    ensures
        CoinSide::of_draw(true) == CoinSide::Heads,
        CoinSide::of_draw(false) == CoinSide::Tails,
        Role::of_draw(true) == Role::Batting,
        Role::of_draw(false) == Role::Fielding,
        CoinSide::of_draw(first) == CoinSide::of_draw(second) <==> first == second,
        Role::of_draw(first) == Role::of_draw(second) <==> first == second,
{
}

} // verus!
