//! The match state machine: picking a side of the coin, tossing it, watching
//! it flip, seeing the result, and playing.
//!
//! The state is replaced as a whole by each transition. A transition is a
//! function of the state, of what the pointer did in the frame, of the clock,
//! and of the random draws made at the two points that call for them: the
//! end of the flip, and the placing of the ball.
//!
//! Each state has its own routine, which is to be called in that state only.
//! A caller that cannot be held to that, and calls one in another state,
//! stops the program.

use crate::batting::PlayingState;
use crate::fixed::Vec3;
use crate::outcome::{draw_bit, CoinSide, Role};
use crate::physics::UnitBallPoint;
use crate::pointer::{Pointer, ScreenSide};
use crate::teams::{Team, Teams};
use vstd::prelude::*;

verus! {

/// Number of pictures in the animation of the flipping coin.
pub const FLIP_FRAMES: u64 = 18;

/// Pictures of the animation shown per second.
pub const FLIP_FRAMES_PER_SECOND: u64 = 10;

/// Number of further pictures for which the last one is held.
pub const FLIP_HOLD_FRAMES: u64 = 3;

/// Time that the flip takes, in microseconds: the animation and the hold.
pub const FLIP_DURATION: u64 = 2_100_000;

/// The flip takes as long as its pictures, shown at their rate.
pub proof fn flip_duration_is_animation_and_hold()
    ensures
        FLIP_DURATION * FLIP_FRAMES_PER_SECOND == (FLIP_FRAMES + FLIP_HOLD_FRAMES) * 1_000_000,
{
}

/// The state of the match. Exactly one variant holds at a time.
#[derive(Debug, Clone, Copy, PartialEq, Eq)]
pub enum MatchState {
    /// The player has yet to bet on a side of the coin.
    PickingSide,
    /// The player has bet and has yet to toss the coin with an upward swipe.
    TossingCoin {
        bet: CoinSide,
        /// Where the pointer went down, until it goes up again.
        press_start_y: Option<i32>,
    },
    /// The coin is in the air.
    FlippingCoin {
        bet: CoinSide,
        /// When the coin left the hand, in microseconds.
        start_time: u64,
    },
    /// The coin has landed.
    ShowingCoinResult {
        bet: CoinSide,
        result: CoinSide,
        /// What the opponent does first if the player lost the toss.
        opponent_choice: Role,
    },
    /// A delivery is under way.
    Playing(PlayingState),
}

/// What a frame brings to the state machine.
#[derive(Debug, Clone, Copy)]
pub struct Input {
    pub pointer: Pointer,
    /// Time since the clock started, in microseconds.
    pub now: u64,
    /// Where to place the ball, should a delivery start in this frame.
    pub offset: UnitBallPoint,
}

/// The random draws made at the end of a flip.
#[derive(Debug, Clone, Copy, PartialEq, Eq, Structural)]
pub struct Draws {
    pub coin: bool,
    pub role: bool,
}

/// The side of the coin that a release at horizontal coordinate `x` bets on:
/// heads on the left half and on the centre line, tails on the right.
pub open spec fn bet_at(x: int) -> CoinSide {
    if x <= 0 {
        CoinSide::Heads
    } else {
        CoinSide::Tails
    }
}

/// The teams when the player bats first.
pub open spec fn player_bats() -> Teams<'static> {
    Teams { batting: Team { name: "You" }, fielding: Team { name: "Opponent" } }
}

/// The teams when the opponent bats first.
pub open spec fn opponent_bats() -> Teams<'static> {
    Teams { batting: Team { name: "Opponent" }, fielding: Team { name: "You" } }
}

/// Who bats first. The winner of the toss decides: the player by the half of
/// the playfield where the pointer was released, left to bat and right to
/// field; the opponent by the choice drawn at the end of the flip.
pub open spec fn first_teams(
    bet: CoinSide,
    result: CoinSide,
    opponent_choice: Role,
    x: int,
) -> Teams<'static> {
    if bet == result {
        match ScreenSide::of(x) {
            ScreenSide::Left => player_bats(),
            ScreenSide::Right => opponent_bats(),
        }
    } else {
        match opponent_choice {
            Role::Batting => opponent_bats(),
            Role::Fielding => player_bats(),
        }
    }
}

/// Time from `start` to `now`. A clock that reads less than it did at the
/// start counts as no time passed.
pub open spec fn elapsed(start: u64, now: u64) -> int {
    if now >= start {
        now - start
    } else {
        0
    }
}

/// Whether a release ends a swipe that went upwards from where the pointer
/// was pressed, if it was pressed at all.
pub open spec fn swiped_up(press_start_y: Option<i32>, y: i32) -> bool {
    match press_start_y {
        Some(start) => y - start < 0,
        None => false,
    }
}

/// The draws have no say in the next state but at the end of a flip: with
/// the same state and the same input, any two pairs of draws lead to the same
/// state.
pub proof fn draws_decide_only_the_flip(state: MatchState, input: Input, first: Draws, second: Draws)
    requires
        !state.draws_decide(input.now),
    ensures
        state.next(input, first) == state.next(input, second),
{
}

/// Where the ball would be placed has no say in the next state but when a
/// delivery starts: with the same state, the same pointer, the same time and
/// the same draws, any two offsets lead to the same state.
pub proof fn offset_decides_only_the_start(
    state: MatchState,
    first: Input,
    second: Input,
    draws: Draws,
)
    requires
        first.pointer == second.pointer,
        first.now == second.now,
        !(state is ShowingCoinResult && first.pointer.released),
    ensures
        state.next(first, draws) == state.next(second, draws),
{
}

/// At the end of a flip the next state holds what was drawn, and nothing
/// else of it is new.
pub proof fn flip_shows_the_draws(bet: CoinSide, start_time: u64, now: u64, draws: Draws)
    requires
        MatchState::flip_over(start_time, now),
    ensures
        MatchState::after_flipping_coin(bet, start_time, now, draws) == (
        MatchState::ShowingCoinResult {
            bet,
            result: CoinSide::of_draw(draws.coin),
            opponent_choice: Role::of_draw(draws.role),
        }),
{
}

/// The coin goes up exactly when the pointer is released above the point
/// where it was pressed; a release level with that point or below it, or
/// without a press, leaves the coin in the hand.
pub proof fn toss_needs_upward_swipe(
    bet: CoinSide,
    press_start_y: Option<i32>,
    pointer: Pointer,
    now: u64,
)
    ensures
        MatchState::after_tossing_coin(bet, press_start_y, pointer, now) is FlippingCoin <==> {
            &&& pointer.released
            &&& if pointer.pressed {
                false
            } else {
                press_start_y matches Some(start) && pointer.y - start < 0
            }
        },
        !(MatchState::after_tossing_coin(bet, press_start_y, pointer, now) is FlippingCoin)
            ==> MatchState::after_tossing_coin(bet, press_start_y, pointer, now) is TossingCoin,
{
}

/// The centre line belongs to the left: a release on it bets on heads, and
/// lets the winner of the toss bat.
pub proof fn centre_line_is_left(x: int, side: CoinSide, opponent_choice: Role)
    ensures
        bet_at(x) == CoinSide::Heads <==> x <= 0,
        first_teams(side, side, opponent_choice, x) == player_bats() <==> x <= 0,
{
    reveal_strlit("You");
    reveal_strlit("Opponent");
    if x > 0 {
        assert(opponent_bats().batting.name@.len() == 8);
        assert(player_bats().batting.name@.len() == 3);
    }
}

impl MatchState {
    /// The state after a frame spent picking a side.
    pub open spec fn after_picking_side(pointer: Pointer) -> MatchState {
        if pointer.released {
            MatchState::TossingCoin { bet: bet_at(pointer.x as int), press_start_y: None }
        } else {
            MatchState::PickingSide
        }
    }

    /// The state after a frame spent waiting for the toss. A press is noted
    /// first; a release in the same frame is judged against it.
    pub open spec fn after_tossing_coin(
        bet: CoinSide,
        press_start_y: Option<i32>,
        pointer: Pointer,
        now: u64,
    ) -> MatchState {
        let noted = if pointer.pressed {
            Some(pointer.y)
        } else {
            press_start_y
        };
        if !pointer.released {
            MatchState::TossingCoin { bet, press_start_y: noted }
        } else if swiped_up(noted, pointer.y) {
            MatchState::FlippingCoin { bet, start_time: now }
        } else {
            MatchState::TossingCoin { bet, press_start_y: None }
        }
    }

    /// Whether a flip that started at `start_time` is over at `now`.
    pub open spec fn flip_over(start_time: u64, now: u64) -> bool {
        elapsed(start_time, now) > FLIP_DURATION
    }

    /// The state after a frame spent watching the coin, given the draws that
    /// decide the result once the flip is over.
    pub open spec fn after_flipping_coin(
        bet: CoinSide,
        start_time: u64,
        now: u64,
        draws: Draws,
    ) -> MatchState {
        if Self::flip_over(start_time, now) {
            MatchState::ShowingCoinResult {
                bet,
                result: CoinSide::of_draw(draws.coin),
                opponent_choice: Role::of_draw(draws.role),
            }
        } else {
            MatchState::FlippingCoin { bet, start_time }
        }
    }

    /// The state after a frame spent looking at the result.
    pub open spec fn after_showing_coin_result(
        bet: CoinSide,
        result: CoinSide,
        opponent_choice: Role,
        pointer: Pointer,
        now: u64,
        offset: Vec3,
    ) -> MatchState {
        if pointer.released {
            MatchState::Playing(
                PlayingState::started(
                    first_teams(bet, result, opponent_choice, pointer.x as int),
                    offset,
                    now,
                ),
            )
        } else {
            MatchState::ShowingCoinResult { bet, result, opponent_choice }
        }
    }

    /// The state after a frame. A delivery under way does not end here: it
    /// is advanced by [`PlayingState::update`].
    pub open spec fn next(self, input: Input, draws: Draws) -> MatchState {
        match self {
            MatchState::PickingSide => Self::after_picking_side(input.pointer),
            MatchState::TossingCoin { bet, press_start_y } => Self::after_tossing_coin(
                bet,
                press_start_y,
                input.pointer,
                input.now,
            ),
            MatchState::FlippingCoin { bet, start_time } => Self::after_flipping_coin(
                bet,
                start_time,
                input.now,
                draws,
            ),
            MatchState::ShowingCoinResult {
                bet,
                result,
                opponent_choice,
            } => Self::after_showing_coin_result(
                bet,
                result,
                opponent_choice,
                input.pointer,
                input.now,
                input.offset@,
            ),
            MatchState::Playing(playing) => MatchState::Playing(playing),
        }
    }

    /// The picture of the animation to show for a coin that has been in the
    /// air since `start_time`: they follow each other at their rate, and the
    /// last one stays.
    pub open spec fn flip_picture_of(start_time: u64, now: u64) -> int {
        let picture = elapsed(start_time, now) * FLIP_FRAMES_PER_SECOND / 1_000_000;
        if picture < FLIP_FRAMES {
            picture
        } else {
            FLIP_FRAMES - 1
        }
    }

    /// Whether the draws have a say in the next state: the coin is in the air
    /// and the flip is over.
    pub open spec fn draws_decide(self, now: u64) -> bool {
        self matches MatchState::FlippingCoin { start_time, .. } && Self::flip_over(start_time, now)
    }

    /// The state at the start of the process.
    pub fn start() -> (state: MatchState)
        ensures
            state == MatchState::PickingSide,
    {
        MatchState::PickingSide
    }

    /// The picture of the animation to show at `now` for a coin that has been
    /// in the air since `start_time`, counted from zero.
    pub fn flip_picture(start_time: u64, now: u64) -> (picture: usize)
        ensures
            picture == Self::flip_picture_of(start_time, now),
            picture < FLIP_FRAMES,
    {
        let elapsed: u64 = if now >= start_time {
            now - start_time
        } else {
            0
        };
        let rate: u128 = FLIP_FRAMES_PER_SECOND as u128;
        assert(elapsed * rate <= 0xffff_ffff_ffff_ffff * 10) by (nonlinear_arith)
            requires
                elapsed <= 0xffff_ffff_ffff_ffff,
                rate == 10,
        ;
        let picture: u128 = (elapsed as u128) * rate / 1_000_000;
        if picture < FLIP_FRAMES as u128 {
            picture as usize
        } else {
            (FLIP_FRAMES - 1) as usize
        }
    }

    /// Starts a delivery with the given teams.
    pub fn init_playing_state(teams: Teams<'static>, offset: UnitBallPoint, now: u64) -> (state:
        MatchState)
        ensures
            state == MatchState::Playing(PlayingState::started(teams, offset@, now)),
    {
        MatchState::Playing(PlayingState::new(teams, offset, now))
    }

    /// Advances the state while the player picks a side: a release bets on
    /// the side of the coin shown where the pointer is.
    pub fn update_picking_side(self, pointer: &Pointer) -> (next: MatchState)
        requires
            self is PickingSide,
        ensures
            next == Self::after_picking_side(*pointer),
    {
        if pointer.released {
            let bet = if pointer.x <= 0 {
                CoinSide::Heads
            } else {
                CoinSide::Tails
            };
            MatchState::TossingCoin { bet, press_start_y: None }
        } else {
            MatchState::PickingSide
        }
    }

    /// Advances the state while the player is to toss the coin: a release
    /// above the point of the press sends the coin up.
    pub fn update_tossing_coin(self, pointer: &Pointer, now: u64) -> (next: MatchState)
        requires
            self is TossingCoin,
        ensures
            next == Self::after_tossing_coin(
                self->TossingCoin_bet,
                self->press_start_y,
                *pointer,
                now,
            ),
    {
        match self {
            MatchState::TossingCoin { bet, press_start_y } => {
                let noted = if pointer.pressed {
                    Some(pointer.y)
                } else {
                    press_start_y
                };
                if !pointer.released {
                    MatchState::TossingCoin { bet, press_start_y: noted }
                } else {
                    let up = match noted {
                        Some(start) => pointer.y < start,
                        None => false,
                    };
                    if up {
                        MatchState::FlippingCoin { bet, start_time: now }
                    } else {
                        MatchState::TossingCoin { bet, press_start_y: None }
                    }
                }
            },
            _ => unreached(),
        }
    }

    /// Advances the state while the coin is in the air, with the draws given.
    /// Once the flip is over they decide the result and the choice of the
    /// opponent; before that they are not looked at.
    pub fn finish_flip(self, now: u64, draws: Draws) -> (next: MatchState)
        requires
            self is FlippingCoin,
        ensures
            next == Self::after_flipping_coin(
                self->FlippingCoin_bet,
                self->FlippingCoin_start_time,
                now,
                draws,
            ),
    {
        match self {
            MatchState::FlippingCoin { bet, start_time } => {
                if now >= start_time && now - start_time > FLIP_DURATION {
                    MatchState::ShowingCoinResult {
                        bet,
                        result: CoinSide::from_draw(draws.coin),
                        opponent_choice: Role::from_draw(draws.role),
                    }
                } else {
                    self
                }
            },
            _ => unreached(),
        }
    }

    /// Advances the state while the coin is in the air. Once the flip is
    /// over, the result and the choice of the opponent are drawn, each once.
    pub fn update_flipping_coin(self, now: u64) -> (next: MatchState)
        requires
            self is FlippingCoin,
        ensures
            !self.draws_decide(now) ==> next == self,
            self.draws_decide(now) ==> next is ShowingCoinResult && next->ShowingCoinResult_bet
                == self->FlippingCoin_bet,
            exists|draws: Draws|
                next == Self::after_flipping_coin(
                    self->FlippingCoin_bet,
                    self->FlippingCoin_start_time,
                    now,
                    draws,
                ),
    {
        match self {
            MatchState::FlippingCoin { bet, start_time } => {
                if now >= start_time && now - start_time > FLIP_DURATION {
                    let draws = Draws { coin: draw_bit(), role: draw_bit() };
                    self.finish_flip(now, draws)
                } else {
                    assert(self == Self::after_flipping_coin(
                        bet,
                        start_time,
                        now,
                        Draws { coin: false, role: false },
                    ));
                    self
                }
            },
            _ => unreached(),
        }
    }

    /// Advances the state while the result is shown: a release starts the
    /// first delivery, with the teams that the toss gave.
    pub fn update_showing_coin_result(
        self,
        pointer: &Pointer,
        now: u64,
        offset: UnitBallPoint,
    ) -> (next: MatchState)
        requires
            self is ShowingCoinResult,
        ensures
            next == Self::after_showing_coin_result(
                self->ShowingCoinResult_bet,
                self->result,
                self->opponent_choice,
                *pointer,
                now,
                offset@,
            ),
    {
        match self {
            MatchState::ShowingCoinResult { bet, result, opponent_choice } => {
                if pointer.released {
                    let player_first = if bet == result {
                        match ScreenSide::from_mouse_position(pointer.x) {
                            ScreenSide::Left => true,
                            ScreenSide::Right => false,
                        }
                    } else {
                        match opponent_choice {
                            Role::Batting => false,
                            Role::Fielding => true,
                        }
                    };
                    let teams = if player_first {
                        Teams::new(["You", "Opponent"])
                    } else {
                        Teams::new(["Opponent", "You"])
                    };
                    Self::init_playing_state(teams, offset, now)
                } else {
                    self
                }
            },
            _ => unreached(),
        }
    }

    /// Advances the state by one frame, whatever it is.
    pub fn advance(self, input: &Input) -> (next: MatchState)
        ensures
            exists|draws: Draws| next == self.next(*input, draws),
            !self.draws_decide(input.now) ==> forall|draws: Draws|
                next == #[trigger] self.next(*input, draws),
    {
        match self {
            MatchState::PickingSide => {
                let next = self.update_picking_side(&input.pointer);
                assert(next == self.next(*input, Draws { coin: false, role: false }));
                next
            },
            MatchState::TossingCoin { .. } => {
                let next = self.update_tossing_coin(&input.pointer, input.now);
                assert(next == self.next(*input, Draws { coin: false, role: false }));
                next
            },
            MatchState::FlippingCoin { bet, start_time } => {
                let next = self.update_flipping_coin(input.now);
                proof {
                    let draws = choose|draws: Draws|
                        next == Self::after_flipping_coin(bet, start_time, input.now, draws);
                    assert(next == self.next(*input, draws));
                }
                next
            },
            MatchState::ShowingCoinResult { .. } => {
                let next = self.update_showing_coin_result(&input.pointer, input.now, input.offset);
                assert(next == self.next(*input, Draws { coin: false, role: false }));
                next
            },
            MatchState::Playing(_) => {
                assert(self == self.next(*input, Draws { coin: false, role: false }));
                self
            },
        }
    }
}

} // verus!
