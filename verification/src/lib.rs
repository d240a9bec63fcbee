//! Deterministic core of a retro cricket mini-game: the coin-toss state
//! machine and the batting model, over fixed-point numbers.
//!
//! The match begins with a toss ([`state`]): the player bets on a side of
//! the coin, swipes it up, and the winner decides who bats ([`teams`],
//! [`outcome`]). Then a delivery is played ([`batting`]): the ball
//! ([`physics`]) is thrown, the pointer ([`pointer`]) turns and swings the
//! bat, and the swing reaches the ball by the share that the correction
//! curve allows ([`correction`], [`polynomial`]).
//!
//! Nothing here reads a clock, an input device or a screen. The frame driver
//! polls them, hands over what it found as fixed-point numbers ([`fixed`]),
//! and carries out what it is told. For its drawing there are the place of
//! the playfield on the screen ([`playfield`]), the palette ([`colour`]),
//! the names of the pictures ([`textures`]), and formulas written as text
//! ([`formula`]) and read under a name ([`constant`]).

pub mod batting;
pub mod colour;
pub mod constant;
pub mod correction;
pub mod fixed;
pub mod formula;
pub mod outcome;
pub mod physics;
pub mod playfield;
pub mod pointer;
pub mod polynomial;
pub mod state;
pub mod teams;
pub mod textures;
