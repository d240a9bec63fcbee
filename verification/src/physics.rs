//! The physical set-up of one delivery, and the ball as the batting model
//! sees it.
//!
//! The rigid-body simulation itself runs outside this library. Here are the
//! quantities that it is set up with, and a plain record of the one ball:
//! where it is, how fast it moves, and whether it takes part in the
//! simulation yet.

use crate::fixed::{product, Vec3, UNIT};
use vstd::prelude::*;

verus! {

/// Radius of the ball.
pub const BALL_RADIUS: i64 = 36_000;

/// Mass of the ball, in millionths of a kilogram.
pub const BALL_MASS: i64 = 155_900;

/// Restitution of both the ball and the ground: perfectly elastic.
pub const RESTITUTION: i64 = UNIT;

/// Downward acceleration. Gravity has no other component.
pub const GRAVITY_Y: i64 = -9_810_000;

/// Half the width and half the depth of the ground slab.
pub const GROUND_HALF_EXTENT: i64 = 1_000_000_000;

/// Half the thickness of the ground slab.
pub const GROUND_HALF_THICKNESS: i64 = 1_000_000;

/// Height of the centre of the ground slab, so that its top is at height
/// zero.
pub const GROUND_CENTRE_Y: i64 = -1_000_000;

/// Distance between the two wickets.
pub const BETWEEN_WICKETS: i64 = 20_120_000;

/// Distance from a bowling crease to the popping crease in front of it.
pub const BOWLING_CREASE_TO_POPPING_CREASE: i64 = 1_220_000;

/// Distance along the pitch from its centre to the point midway between a
/// bowling crease and its popping crease: half the distance between the
/// wickets, less half the distance between the two creases.
pub const CREASE_MIDPOINT: i64 = 9_450_000;

/// Where the ball is placed before its offset is added: beside the middle of
/// the pitch, above the ground, between the creases at the bowler's end.
pub const SPAWN_X: i64 = 500_000;

pub const SPAWN_Y: i64 = 2_400_000;

pub const SPAWN_Z: i64 = -CREASE_MIDPOINT;

/// The largest distance by which the ball is placed off its nominal point.
pub const JITTER_RADIUS: i64 = 200_000;

/// The force that throws the ball: along the pitch, towards the batter.
pub const THROW_FORCE_Z: i64 = 2_000_000;

/// The crease midpoint is where the lengths of the pitch put it.
pub proof fn crease_midpoint_is_midway()
    ensures
        2 * CREASE_MIDPOINT == BETWEEN_WICKETS - BOWLING_CREASE_TO_POPPING_CREASE,
{
}

/// Whether a point lies in the ball of radius one around the origin.
pub open spec fn in_unit_ball(point: Vec3) -> bool {
    point.x * point.x + point.y * point.y + point.z * point.z <= UNIT * UNIT
}

/// A point of the ball of radius one around the origin.
#[derive(Debug, Clone, Copy)]
pub struct UnitBallPoint {
    x: i64,
    y: i64,
    z: i64,
}

impl UnitBallPoint {
    #[verifier::type_invariant]
    spec fn inside(self) -> bool {
        in_unit_ball(Vec3 { x: self.x, y: self.y, z: self.z })
    }

    /// The point itself.
    pub closed spec fn view(self) -> Vec3 {
        Vec3 { x: self.x, y: self.y, z: self.z }
    }

    /// The centre of the ball.
    pub fn origin() -> (centre: Self)
        ensures
            centre@ == (Vec3 { x: 0, y: 0, z: 0 }),
    {
        UnitBallPoint { x: 0, y: 0, z: 0 }
    }

    /// Accepts `point` if it lies in the unit ball, and no other point.
    pub fn new(point: Vec3) -> (accepted: Option<Self>)
        ensures
            accepted.is_some() <==> in_unit_ball(point),
            accepted.is_some() ==> accepted.unwrap()@ == point,
    {
        let limit: i64 = UNIT;
        if point.x < -limit || point.x > limit || point.y < -limit || point.y > limit || point.z
            < -limit || point.z > limit {
            proof {
                lemma_outside_cube(point);
            }
            return None;
        }
        let x: i128 = point.x as i128;
        let y: i128 = point.y as i128;
        let z: i128 = point.z as i128;
        proof {
            lemma_square_bound(x as int);
            lemma_square_bound(y as int);
            lemma_square_bound(z as int);
        }
        let length_squared: i128 = x * x + y * y + z * z;
        if length_squared <= (UNIT as i128) * (UNIT as i128) {
            Some(UnitBallPoint { x: point.x, y: point.y, z: point.z })
        } else {
            None
        }
    }

    /// The coordinates of the point.
    pub fn coordinates(&self) -> (point: Vec3)
        ensures
            point == self@,
            in_unit_ball(point),
    {
        proof {
            use_type_invariant(self);
        }
        Vec3 { x: self.x, y: self.y, z: self.z }
    }
}

/// The square of a coordinate within one unit of zero is at most one unit
/// squared.
proof fn lemma_square_bound(c: int)
    requires
        -UNIT <= c <= UNIT,
    ensures
        0 <= c * c <= UNIT * UNIT,
{
    assert(0 <= c * c <= 1_000_000 * 1_000_000) by (nonlinear_arith)
        requires
            -1_000_000 <= c <= 1_000_000,
    ;
}

/// A point with a coordinate further than one unit from zero lies outside the
/// unit ball.
proof fn lemma_outside_cube(point: Vec3)
    requires
        point.x < -UNIT || point.x > UNIT || point.y < -UNIT || point.y > UNIT || point.z < -UNIT
            || point.z > UNIT,
    ensures
        !in_unit_ball(point),
{
    let x = point.x as int;
    let y = point.y as int;
    let z = point.z as int;
    assert(x * x >= 0 && y * y >= 0 && z * z >= 0) by (nonlinear_arith);
    assert((x < -1_000_000 || x > 1_000_000) ==> x * x > 1_000_000 * 1_000_000)
        by (nonlinear_arith);
    assert((y < -1_000_000 || y > 1_000_000) ==> y * y > 1_000_000 * 1_000_000)
        by (nonlinear_arith);
    assert((z < -1_000_000 || z > 1_000_000) ==> z * z > 1_000_000 * 1_000_000)
        by (nonlinear_arith);
}

/// The ball of a delivery.
#[derive(Debug, Clone, Copy, PartialEq, Eq, Structural)]
pub struct Ball {
    pub position: Vec3,
    pub velocity: Vec3,
    /// Whether the simulation moves the ball. A ball that is not enabled
    /// stays where it was placed.
    pub enabled: bool,
}

/// The place of a new ball: the nominal point, moved by `offset` scaled to
/// the jitter radius.
pub open spec fn spawn_point(offset: Vec3) -> Vec3 {
    Vec3 {
        x: (SPAWN_X + product(offset.x as int, JITTER_RADIUS as int)) as i64,
        y: (SPAWN_Y + product(offset.y as int, JITTER_RADIUS as int)) as i64,
        z: (SPAWN_Z + product(offset.z as int, JITTER_RADIUS as int)) as i64,
    }
}

impl Ball {
    /// A new ball: at rest at its place, and not yet part of the simulation.
    pub open spec fn spawned(offset: Vec3) -> Ball {
        Ball { position: spawn_point(offset), velocity: Vec3 { x: 0, y: 0, z: 0 }, enabled: false }
    }

    /// Places a new ball. It lies within the jitter radius of the nominal
    /// point along each axis, is at rest, and is not enabled.
    pub fn spawn(offset: UnitBallPoint) -> (ball: Ball)
        ensures
            ball == Self::spawned(offset@),
            SPAWN_X - JITTER_RADIUS <= ball.position.x <= SPAWN_X + JITTER_RADIUS,
            SPAWN_Y - JITTER_RADIUS <= ball.position.y <= SPAWN_Y + JITTER_RADIUS,
            SPAWN_Z - JITTER_RADIUS <= ball.position.z <= SPAWN_Z + JITTER_RADIUS,
    {
        let point = offset.coordinates();
        proof {
            lemma_in_cube(point);
        }
        let x: i64 = SPAWN_X + scale_to_jitter(point.x);
        let y: i64 = SPAWN_Y + scale_to_jitter(point.y);
        let z: i64 = SPAWN_Z + scale_to_jitter(point.z);
        Ball {
            position: Vec3 { x, y, z },
            velocity: Vec3 { x: 0, y: 0, z: 0 },
            enabled: false,
        }
    }
}

/// Scales a coordinate of a point of the unit ball to the jitter radius.
fn scale_to_jitter(coordinate: i64) -> (scaled: i64)
    requires
        -UNIT <= coordinate <= UNIT,
    ensures
        scaled == product(coordinate as int, JITTER_RADIUS as int),
        -JITTER_RADIUS <= scaled <= JITTER_RADIUS,
{
    let wide: i128 = crate::fixed::multiply(coordinate as i128, JITTER_RADIUS as i128);
    wide as i64
}

/// Each coordinate of a point of the unit ball is within one unit of zero.
proof fn lemma_in_cube(point: Vec3)
    requires
        in_unit_ball(point),
    ensures
        -UNIT <= point.x <= UNIT,
        -UNIT <= point.y <= UNIT,
        -UNIT <= point.z <= UNIT,
{
    if point.x < -UNIT || point.x > UNIT || point.y < -UNIT || point.y > UNIT || point.z < -UNIT
        || point.z > UNIT {
        lemma_outside_cube(point);
    }
}

} // verus!
