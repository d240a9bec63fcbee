//! One delivery, frame by frame: the ball is thrown once its delay has
//! passed, the pointer turns the bat, and the first swing that is fast enough
//! strikes the ball.
//!
//! The rigid-body simulation runs outside this library. Each frame it reports
//! where the ball is and how fast it moves; [`PlayingState::update`] answers
//! with what is to be done to the ball.

use crate::correction::{correction, correction_multiplier, SCALE};
use crate::fixed::{clamp, clamp_to, floor_div, multiply, product, quotient, saturate, saturated};
use crate::fixed::{floor_is_between, Vec3, UNIT};
use crate::physics::{Ball, UnitBallPoint, CREASE_MIDPOINT, THROW_FORCE_Z};
use crate::teams::Teams;
use vstd::prelude::*;

verus! {

/// Time between the start of a delivery and the throw, in microseconds.
pub const BALL_DELAY: u64 = 3_000_000;

/// Angle by which the bat turns for each unit that the pointer moves
/// sideways.
pub const HORIZONTAL_SENSITIVITY: i64 = 200_000;

/// Length of swing for each unit that the pointer moves up or down.
pub const VERTICAL_SENSITIVITY: i64 = 50_000;

/// Speed that a swing must exceed to strike the ball.
pub const BATTING_SPEED_THRESHOLD: i64 = 5_000_000;

/// The bat turns no further than this to either side.
pub const BATTING_DIRECTION_LIMIT: i64 = 2_500_000;

/// Height and distance of the camera. It stands on the line of the pitch and
/// looks at its centre.
pub const CAMERA_HEIGHT: i64 = 10_000_000;

pub const CAMERA_DISTANCE: i64 = 30_000_000;

/// No swing speed lies further from zero than this: the pointer moves by less
/// than 2^31 millionths and a frame takes a microsecond at least.
const SWING_SPEED_BOUND: i64 = 107_374_183_000_000;

/// What the frame driver reports for one frame of a delivery.
#[derive(Debug, Clone, Copy, PartialEq, Eq, Structural)]
pub struct Frame {
    /// Time since the clock started, in microseconds.
    pub now: u64,
    /// Time since the previous frame, in microseconds.
    pub frame_time: u32,
    /// Movement of the pointer since the previous frame, sideways and up or
    /// down, as the input source reports it.
    pub pointer_dx: i32,
    pub pointer_dy: i32,
    /// The ball after the simulation has advanced by `frame_time`.
    pub ball_position: Vec3,
    pub ball_velocity: Vec3,
    /// The way the bat points once it has turned by `pointer_dx`: the forward
    /// axis, rotated about the vertical axis by
    /// [`PlayingState::aimed_direction`].
    pub swing_direction: Vec3,
}

/// What is to be done to the ball after a frame.
#[derive(Debug, Clone, Copy, PartialEq, Eq)]
pub struct FrameActions {
    /// The ball is to be enabled and thrown with this force.
    pub throw: Option<Vec3>,
    /// The ball was struck: its velocity is to be set to this.
    pub strike: Option<Vec3>,
}

/// The state of a delivery.
#[derive(Debug, Clone, Copy, PartialEq, Eq)]
pub struct PlayingState {
    pub innings: usize,
    pub teams: Teams<'static>,
    /// When the delivery started, in microseconds.
    pub start_time: u64,
    /// Angle of the bat about the vertical axis.
    pub batting_direction: i64,
    pub ball_thrown: bool,
    pub ball_hit: bool,
    pub camera_position: Vec3,
    pub camera_target: Vec3,
    pub ball: Ball,
}

/// The absolute value of a difference.
pub open spec fn distance(a: int, b: int) -> int {
    if a >= b {
        a - b
    } else {
        b - a
    }
}

/// The speed of a swing: the vertical movement of the pointer, scaled, by
/// the time it took.
pub open spec fn swing_speed(pointer_dy: int, frame_time: int) -> int {
    quotient(product(pointer_dy, VERTICAL_SENSITIVITY as int), frame_time)
}

/// One coordinate of the velocity of a struck ball. The swing asks for
/// `direction` times `speed`; the ball moves from `velocity` towards that by
/// the given share of the difference.
pub open spec fn struck_component(velocity: int, direction: int, speed: int, share: int) -> int {
    saturated(velocity + product(product(direction, speed) - velocity, share))
}

/// The velocity of a struck ball.
pub open spec fn struck_velocity(velocity: Vec3, direction: Vec3, speed: int, share: int) -> Vec3 {
    Vec3 {
        x: struck_component(velocity.x as int, direction.x as int, speed, share) as i64,
        y: struck_component(velocity.y as int, direction.y as int, speed, share) as i64,
        z: struck_component(velocity.z as int, direction.z as int, speed, share) as i64,
    }
}

/// The force that throws the ball.
pub open spec fn throw_force() -> Vec3 {
    Vec3 { x: 0, y: 0, z: THROW_FORCE_Z }
}

impl PlayingState {
    /// The start of a delivery: nothing thrown, nothing hit, the bat straight,
    /// and a new ball at its place.
    pub open spec fn started(teams: Teams<'static>, offset: Vec3, now: u64) -> PlayingState {
        PlayingState {
            innings: 0,
            teams,
            start_time: now,
            batting_direction: 0,
            ball_thrown: false,
            ball_hit: false,
            camera_position: Vec3 { x: 0, y: CAMERA_HEIGHT, z: CAMERA_DISTANCE },
            camera_target: Vec3 { x: 0, y: 0, z: 0 },
            ball: Ball::spawned(offset),
        }
    }

    /// What holds of every delivery that started with [`PlayingState::new`]:
    /// the bat is within its limits, and the ball takes part in the
    /// simulation from the throw on, not before.
    pub open spec fn wf(self) -> bool {
        &&& -BATTING_DIRECTION_LIMIT <= self.batting_direction <= BATTING_DIRECTION_LIMIT
        &&& self.ball.enabled == self.ball_thrown
    }

    /// Time since the delivery started. A clock that reads less than it did at
    /// the start counts as no time passed.
    pub open spec fn elapsed(self, now: u64) -> int {
        if now >= self.start_time {
            now - self.start_time
        } else {
            0
        }
    }

    /// Whether the ball is thrown in a frame at time `now`: it has not been
    /// thrown, and the delay has passed.
    pub open spec fn throw_due(self, now: u64) -> bool {
        !self.ball_thrown && self.elapsed(now) > BALL_DELAY
    }

    /// The delivery with the ball where the simulation reports it.
    pub open spec fn after_observation(self, position: Vec3, velocity: Vec3) -> PlayingState {
        PlayingState { ball: Ball { position, velocity, ..self.ball }, ..self }
    }

    /// The delivery after the throw, if it is due.
    pub open spec fn after_throw(self, now: u64) -> PlayingState {
        if self.throw_due(now) {
            PlayingState { ball_thrown: true, ball: Ball { enabled: true, ..self.ball }, ..self }
        } else {
            self
        }
    }

    /// The angle of the bat after the pointer has moved sideways by
    /// `pointer_dx`.
    pub open spec fn aimed_direction(self, pointer_dx: i32) -> int {
        clamp(
            self.batting_direction + product(pointer_dx as int, HORIZONTAL_SENSITIVITY as int),
            -BATTING_DIRECTION_LIMIT as int,
            BATTING_DIRECTION_LIMIT as int,
        )
    }

    /// The delivery after the bat has turned.
    pub open spec fn after_aim(self, pointer_dx: i32) -> PlayingState {
        PlayingState { batting_direction: self.aimed_direction(pointer_dx) as i64, ..self }
    }

    /// How far the ball is from the ideal point of contact, along the pitch.
    pub open spec fn distance_error(self) -> int {
        distance(CREASE_MIDPOINT as int, self.ball.position.z as int)
    }

    /// Whether a swing strikes the ball: the ball has not been hit, the frame
    /// took time, and the swing is faster than the threshold.
    pub open spec fn swing_lands(self, pointer_dy: i32, frame_time: u32) -> bool {
        &&& !self.ball_hit
        &&& frame_time > 0
        &&& swing_speed(pointer_dy as int, frame_time as int) > BATTING_SPEED_THRESHOLD
    }

    /// The velocity that a swing gives the ball.
    pub open spec fn swing_velocity(
        self,
        pointer_dy: i32,
        frame_time: u32,
        direction: Vec3,
    ) -> Vec3 {
        struck_velocity(
            self.ball.velocity,
            direction,
            swing_speed(pointer_dy as int, frame_time as int),
            correction(self.distance_error()),
        )
    }

    /// The delivery after a swing.
    pub open spec fn after_swing(
        self,
        pointer_dy: i32,
        frame_time: u32,
        direction: Vec3,
    ) -> PlayingState {
        if self.swing_lands(pointer_dy, frame_time) {
            PlayingState {
                ball_hit: true,
                ball: Ball {
                    velocity: self.swing_velocity(pointer_dy, frame_time, direction),
                    ..self.ball
                },
                ..self
            }
        } else {
            self
        }
    }

    /// The delivery after a frame: the ball is observed, thrown if due, the bat
    /// turns, and the swing is judged, in this order.
    pub open spec fn after_frame(self, frame: Frame) -> PlayingState {
        self.after_observation(frame.ball_position, frame.ball_velocity).after_throw(
            frame.now,
        ).after_aim(frame.pointer_dx).after_swing(
            frame.pointer_dy,
            frame.frame_time,
            frame.swing_direction,
        )
    }

    /// The delivery as it stands before the swing of a frame is judged.
    pub open spec fn before_swing(self, frame: Frame) -> PlayingState {
        self.after_observation(frame.ball_position, frame.ball_velocity).after_throw(
            frame.now,
        ).after_aim(frame.pointer_dx)
    }

    /// What a frame asks to be done to the ball.
    pub open spec fn actions(self, frame: Frame) -> FrameActions {
        let aimed = self.before_swing(frame);
        FrameActions {
            throw: if self.throw_due(frame.now) {
                Some(throw_force())
            } else {
                None
            },
            strike: if aimed.swing_lands(frame.pointer_dy, frame.frame_time) {
                Some(aimed.swing_velocity(frame.pointer_dy, frame.frame_time, frame.swing_direction))
            } else {
                None
            },
        }
    }

    /// Starts a delivery at time `now`, with the ball moved off its nominal
    /// place by `offset` scaled to the jitter radius.
    pub fn new(teams: Teams<'static>, offset: UnitBallPoint, now: u64) -> (state: PlayingState)
        ensures
            state == Self::started(teams, offset@, now),
            state.wf(),
    {
        PlayingState {
            innings: 0,
            teams,
            start_time: now,
            batting_direction: 0,
            ball_thrown: false,
            ball_hit: false,
            camera_position: Vec3 { x: 0, y: CAMERA_HEIGHT, z: CAMERA_DISTANCE },
            camera_target: Vec3 { x: 0, y: 0, z: 0 },
            ball: Ball::spawn(offset),
        }
    }

    /// Records where the simulation has the ball.
    pub fn observe_ball(&mut self, position: Vec3, velocity: Vec3)
        ensures
            *final(self) == old(self).after_observation(position, velocity),
            old(self).wf() ==> final(self).wf(),
    {
        self.ball.position = position;
        self.ball.velocity = velocity;
    }

    /// Throws the ball if it is due: once, when the delay since the start has
    /// passed. Returns the force to throw it with.
    pub fn throw_if_due(&mut self, now: u64) -> (force: Option<Vec3>)
        ensures
            *final(self) == old(self).after_throw(now),
            force == (if old(self).throw_due(now) {
                Some(throw_force())
            } else {
                None
            }),
            old(self).wf() ==> final(self).wf(),
    {
        if !self.ball_thrown && now >= self.start_time && now - self.start_time > BALL_DELAY {
            self.ball.enabled = true;
            self.ball_thrown = true;
            Some(Vec3 { x: 0, y: 0, z: THROW_FORCE_Z })
        } else {
            None
        }
    }

    /// The angle that the bat has once the pointer has moved sideways by
    /// `pointer_dx`. The delivery itself is left as it is.
    pub fn next_direction(&self, pointer_dx: i32) -> (direction: i64)
        ensures
            direction == self.aimed_direction(pointer_dx),
            -BATTING_DIRECTION_LIMIT <= direction <= BATTING_DIRECTION_LIMIT,
    {
        let turn: i128 = multiply(pointer_dx as i128, HORIZONTAL_SENSITIVITY as i128);
        clamp_to(
            self.batting_direction as i128 + turn,
            -BATTING_DIRECTION_LIMIT,
            BATTING_DIRECTION_LIMIT,
        )
    }

    /// Turns the bat by the sideways movement of the pointer, within its
    /// limits. Returns the new angle.
    pub fn aim(&mut self, pointer_dx: i32) -> (direction: i64)
        ensures
            *final(self) == old(self).after_aim(pointer_dx),
            direction == final(self).batting_direction,
            -BATTING_DIRECTION_LIMIT <= direction <= BATTING_DIRECTION_LIMIT,
            final(self).ball.enabled == final(self).ball_thrown ==> final(self).wf(),
    {
        let direction: i64 = self.next_direction(pointer_dx);
        self.batting_direction = direction;
        direction
    }

    /// Judges the swing of a frame. If it lands, the ball is hit, and the
    /// velocity that it now has is returned; no later swing lands.
    pub fn swing(&mut self, pointer_dy: i32, frame_time: u32, direction: Vec3) -> (struck: Option<
        Vec3,
    >)
        ensures
            *final(self) == old(self).after_swing(pointer_dy, frame_time, direction),
            struck == (if old(self).swing_lands(pointer_dy, frame_time) {
                Some(old(self).swing_velocity(pointer_dy, frame_time, direction))
            } else {
                None
            }),
            old(self).ball_hit ==> struck.is_none(),
            struck.is_some() ==> final(self).ball_hit,
            old(self).wf() ==> final(self).wf(),
    {
        if self.ball_hit || frame_time == 0 {
            return None;
        }
        let speed: i64 = measure_swing(pointer_dy, frame_time);
        if speed <= BATTING_SPEED_THRESHOLD {
            return None;
        }
        let error: i128 = if CREASE_MIDPOINT >= self.ball.position.z {
            CREASE_MIDPOINT as i128 - self.ball.position.z as i128
        } else {
            self.ball.position.z as i128 - CREASE_MIDPOINT as i128
        };
        let share: i64 = correction_multiplier(error);
        let velocity = Vec3 {
            x: strike(self.ball.velocity.x, direction.x, speed, share),
            y: strike(self.ball.velocity.y, direction.y, speed, share),
            z: strike(self.ball.velocity.z, direction.z, speed, share),
        };
        self.ball.velocity = velocity;
        self.ball_hit = true;
        Some(velocity)
    }

    /// Advances the delivery by one frame and says what is to be done to the
    /// ball.
    pub fn update(&mut self, frame: &Frame) -> (actions: FrameActions)
        ensures
            *final(self) == old(self).after_frame(*frame),
            actions == old(self).actions(*frame),
            old(self).wf() ==> final(self).wf(),
    {
        self.observe_ball(frame.ball_position, frame.ball_velocity);
        let throw = self.throw_if_due(frame.now);
        let _: i64 = self.aim(frame.pointer_dx);
        let strike = self.swing(frame.pointer_dy, frame.frame_time, frame.swing_direction);
        FrameActions { throw, strike }
    }
}

/// The delivery after a run of frames, taken in order.
pub open spec fn after_frames(state: PlayingState, frames: Seq<Frame>) -> PlayingState
    decreases frames.len(),
{
    if frames.len() == 0 {
        state
    } else {
        after_frames(state, frames.drop_last()).after_frame(frames.last())
    }
}

/// The number of frames, in a run of frames taken in order, in which a swing
/// changes the velocity of the ball.
pub open spec fn strikes(state: PlayingState, frames: Seq<Frame>) -> nat
    decreases frames.len(),
{
    if frames.len() == 0 {
        0
    } else {
        let before = after_frames(state, frames.drop_last());
        let last: nat = if before.actions(frames.last()).strike.is_some() {
            1
        } else {
            0
        };
        strikes(state, frames.drop_last()) + last
    }
}

/// A ball that has been hit stays hit, and a frame strikes it only if it had
/// not been hit before.
pub proof fn hit_is_kept(state: PlayingState, frame: Frame)
    ensures
        state.ball_hit ==> state.after_frame(frame).ball_hit,
        state.ball_hit ==> state.actions(frame).strike.is_none(),
        state.actions(frame).strike.is_some() ==> !state.ball_hit && state.after_frame(
            frame,
        ).ball_hit,
        state.actions(frame).strike.is_none() ==> state.after_frame(frame).ball_hit
            == state.ball_hit && state.after_frame(frame).ball.velocity == frame.ball_velocity,
{
}

/// Once the ball has been hit, a swing changes nothing, however fast it is.
pub proof fn second_swing_changes_nothing(
    state: PlayingState,
    pointer_dy: i32,
    frame_time: u32,
    direction: Vec3,
)
    requires
        state.ball_hit,
    ensures
        state.after_swing(pointer_dy, frame_time, direction) == state,
{
}

/// Over any run of frames the ball is struck at most once, and not at all if
/// it had been hit before. The ball is hit at the end exactly if it was hit
/// at the start or struck on the way.
pub proof fn ball_is_struck_at_most_once(state: PlayingState, frames: Seq<Frame>)
    ensures
        strikes(state, frames) <= 1,
        state.ball_hit ==> strikes(state, frames) == 0,
        after_frames(state, frames).ball_hit <==> state.ball_hit || strikes(state, frames) == 1,
    decreases frames.len(),
{
    if frames.len() > 0 {
        ball_is_struck_at_most_once(state, frames.drop_last());
        hit_is_kept(after_frames(state, frames.drop_last()), frames.last());
    }
}

/// The ball is thrown at most once: after the throw no frame asks for
/// another, and a thrown ball stays thrown.
pub proof fn ball_is_thrown_once(state: PlayingState, frame: Frame)
    ensures
        state.ball_thrown ==> state.actions(frame).throw.is_none(),
        state.ball_thrown ==> state.after_frame(frame).ball_thrown,
        state.actions(frame).throw.is_some() ==> state.after_frame(frame).ball_thrown,
{
}

/// Every delivery that is well formed stays so over any run of frames.
pub proof fn frames_keep_well_formed(state: PlayingState, frames: Seq<Frame>)
    requires
        state.wf(),
    ensures
        after_frames(state, frames).wf(),
    decreases frames.len(),
{
    if frames.len() > 0 {
        frames_keep_well_formed(state, frames.drop_last());
    }
}

/// Measures the speed of a swing.
fn measure_swing(pointer_dy: i32, frame_time: u32) -> (speed: i64)
    requires
        frame_time > 0,
    ensures
        speed == swing_speed(pointer_dy as int, frame_time as int),
        -SWING_SPEED_BOUND <= speed <= SWING_SPEED_BOUND,
{
    let length: i128 = multiply(pointer_dy as i128, VERTICAL_SENSITIVITY as i128);
    assert(-107_374_183 <= length <= 107_374_183);
    let scaled: i128 = length * SCALE;
    proof {
        floor_is_between(scaled as int, frame_time as int);
    }
    let speed: i128 = floor_div(scaled, frame_time as i128);
    speed as i64
}

/// Computes one coordinate of the velocity of a struck ball.
fn strike(velocity: i64, direction: i64, speed: i64, share: i64) -> (struck: i64)
    requires
        -SWING_SPEED_BOUND <= speed <= SWING_SPEED_BOUND,
        0 <= share <= UNIT,
    ensures
        struck == struck_component(velocity as int, direction as int, speed as int, share as int),
{
    assert(-0x8000_0000_0000_0000 * 107_374_183_000_000 <= direction * speed
        <= 0x8000_0000_0000_0000 * 107_374_183_000_000) by (nonlinear_arith)
        requires
            -0x8000_0000_0000_0000 <= direction <= 0x8000_0000_0000_0000,
            -107_374_183_000_000 <= speed <= 107_374_183_000_000,
    ;
    let wanted: i128 = multiply(direction as i128, speed as i128);
    let change: i128 = wanted - velocity as i128;
    assert(-0x8000_0000_0000_0000 * 107_374_184 <= change <= 0x8000_0000_0000_0000 * 107_374_184);
    assert(-0x8000_0000_0000_0000 * 107_374_184 * 1_000_000 <= change * share
        <= 0x8000_0000_0000_0000 * 107_374_184 * 1_000_000) by (nonlinear_arith)
        requires
            -0x8000_0000_0000_0000 * 107_374_184 <= change <= 0x8000_0000_0000_0000 * 107_374_184,
            0 <= share <= 1_000_000,
    ;
    let taken: i128 = multiply(change, share as i128);
    saturate(velocity as i128 + taken)
}

} // verus!
