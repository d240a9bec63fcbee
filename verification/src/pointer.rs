//! The pointer, as polled once per frame in playfield coordinates.
//!
//! The playfield has its origin at the centre; `x` grows to the right and `y`
//! grows downwards. Coordinates are fixed-point numbers.

use vstd::prelude::*;

verus! {

/// What the pointer did during one frame and where it stands at its end.
#[derive(Debug, Clone, Copy, PartialEq, Eq, Structural)]
pub struct Pointer {
    /// The primary button went down during this frame.
    pub pressed: bool,
    /// The primary button came up during this frame.
    pub released: bool,
    pub x: i32,
    pub y: i32,
}

/// A half of the playfield.
#[derive(Debug, Clone, Copy, PartialEq, Eq, Structural)]
pub enum ScreenSide {
    Left,
    Right,
}

impl ScreenSide {
    /// The half that holds the points with horizontal coordinate `x`. The
    /// centre line belongs to the left half.
    pub open spec fn of(x: int) -> ScreenSide {
        if x <= 0 {
            ScreenSide::Left
        } else {
            ScreenSide::Right
        }
    }

    /// The half of the playfield that the pointer is in, given its horizontal
    /// coordinate.
    pub fn from_mouse_position(x: i32) -> (side: ScreenSide)
        ensures
            side == Self::of(x as int),
    {
        if x <= 0 {
            ScreenSide::Left
        } else {
            ScreenSide::Right
        }
    }
}

} // verus!
