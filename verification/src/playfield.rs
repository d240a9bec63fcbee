//! The playfield and its place on the screen.
//!
//! The playfield has a fixed size of its own. It is shown as large as the
//! screen allows with its proportions kept, in the middle of the screen; what
//! is left of the screen to either side, or above and below, is border.

use crate::fixed::{floor_div, multiply, product, quotient, saturate, saturated, Vec2, UNIT};
use vstd::prelude::*;

verus! {

/// Width of the playfield.
pub const WIDTH: i64 = 160_000_000;

/// Height of the playfield.
pub const HEIGHT: i64 = 100_000_000;

/// Pixels per unit of the playfield, for each pixel of screen width, if the
/// width decides: one divided by the width of the playfield.
pub const SCALE_PER_PIXEL_OF_WIDTH: i64 = 6_250;

/// Pixels per unit of the playfield, for each pixel of screen height, if the
/// height decides: one divided by the height of the playfield.
pub const SCALE_PER_PIXEL_OF_HEIGHT: i64 = 10_000;

/// The size of the screen, in whole pixels.
#[derive(Debug, Clone, Copy, PartialEq, Eq, Structural)]
pub struct Screen {
    pub width: u32,
    pub height: u32,
}

/// A rectangle on the screen, by its top left corner and its size.
#[derive(Debug, Clone, Copy, PartialEq, Eq, Structural)]
pub struct Rect {
    pub x: i64,
    pub y: i64,
    pub width: i64,
    pub height: i64,
}

/// The scale factors are the inverses of the sides of the playfield.
pub proof fn scale_factors_invert_the_sides()
    ensures
        quotient(UNIT as int, WIDTH as int) == SCALE_PER_PIXEL_OF_WIDTH,
        quotient(UNIT as int, HEIGHT as int) == SCALE_PER_PIXEL_OF_HEIGHT,
        SCALE_PER_PIXEL_OF_WIDTH * WIDTH == UNIT * UNIT,
        SCALE_PER_PIXEL_OF_HEIGHT * HEIGHT == UNIT * UNIT,
{
}

/// At a given scale the playfield is 160 and 100 times the scale in size.
proof fn lemma_playfield_size(scale: int)
    ensures
        product(scale, WIDTH as int) == 160 * scale,
        product(scale, HEIGHT as int) == 100 * scale,
{
    assert(scale * (WIDTH as int) == scale * 160_000_000);
    assert(scale * (HEIGHT as int) == scale * 100_000_000);
    assert(scale * 160_000_000 / 1_000_000 == 160 * scale);
    assert(scale * 100_000_000 / 1_000_000 == 100 * scale);
}

impl Screen {
    /// Pixels per unit of the playfield: the largest scale at which the
    /// playfield is no wider and no higher than the screen.
    pub open spec fn scale_of(self) -> int {
        if SCALE_PER_PIXEL_OF_WIDTH * self.width <= SCALE_PER_PIXEL_OF_HEIGHT * self.height {
            SCALE_PER_PIXEL_OF_WIDTH * self.width
        } else {
            SCALE_PER_PIXEL_OF_HEIGHT * self.height
        }
    }

    /// Where the top left corner of the playfield is on the screen: half of
    /// what the scaled playfield leaves of the screen, along each axis.
    pub open spec fn origin_of(self) -> Vec2 {
        Vec2 {
            x: ((self.width * UNIT - product(self.scale_of(), WIDTH as int)) / 2) as i64,
            y: ((self.height * UNIT - product(self.scale_of(), HEIGHT as int)) / 2) as i64,
        }
    }

    /// Pixels per unit of the playfield.
    pub fn scale(&self) -> (scale: i64)
        ensures
            scale == self.scale_of(),
            0 <= scale,
            scale > 0 <==> self.width > 0 && self.height > 0,
    {
        let by_width: i64 = SCALE_PER_PIXEL_OF_WIDTH * (self.width as i64);
        let by_height: i64 = SCALE_PER_PIXEL_OF_HEIGHT * (self.height as i64);
        if by_width <= by_height {
            by_width
        } else {
            by_height
        }
    }

    /// The size of the playfield on the screen.
    pub fn playfield_size(&self) -> (size: Vec2)
        ensures
            size.x == product(self.scale_of(), WIDTH as int),
            size.y == product(self.scale_of(), HEIGHT as int),
            0 <= size.x <= self.width * UNIT,
            0 <= size.y <= self.height * UNIT,
            size.x == self.width * UNIT || size.y == self.height * UNIT,
    {
        let scale: i128 = self.scale() as i128;
        proof {
            lemma_playfield_size(self.scale_of());
        }
        Vec2 {
            x: multiply(scale, WIDTH as i128) as i64,
            y: multiply(scale, HEIGHT as i128) as i64,
        }
    }

    /// Where the top left corner of the playfield is on the screen. The
    /// playfield is centred, and touches the edge of the screen along one
    /// axis at least.
    pub fn origin(&self) -> (origin: Vec2)
        ensures
            origin == self.origin_of(),
            0 <= origin.x && 0 <= origin.y,
            origin.x == 0 || origin.y == 0,
            2 * origin.x + product(self.scale_of(), WIDTH as int) == self.width * UNIT,
            2 * origin.y + product(self.scale_of(), HEIGHT as int) == self.height * UNIT,
    {
        let size = self.playfield_size();
        proof {
            lemma_playfield_size(self.scale_of());
        }
        let left: i128 = floor_div((self.width as i128) * (UNIT as i128) - size.x as i128, 2);
        let top: i128 = floor_div((self.height as i128) * (UNIT as i128) - size.y as i128, 2);
        Vec2 { x: left as i64, y: top as i64 }
    }

    /// The length on the screen of a length of the playfield.
    pub fn transform_length(&self, length: i64) -> (pixels: i64)
        ensures
            pixels == saturated(product(self.scale_of(), length as int)),
    {
        let scale: i128 = self.scale() as i128;
        assert(-0x8000_0000_0000_0000 * 0x8000_0000_0000_0000 <= scale * length
            <= 0x8000_0000_0000_0000 * 0x8000_0000_0000_0000) by (nonlinear_arith)
            requires
                0 <= scale <= 0x8000_0000_0000_0000,
                -0x8000_0000_0000_0000 <= length <= 0x8000_0000_0000_0000,
        ;
        saturate(multiply(scale, length as i128))
    }

    /// The size on the screen of an extent of the playfield.
    pub fn transform_size(&self, size: Vec2) -> (pixels: Vec2)
        ensures
            pixels.x == saturated(product(self.scale_of(), size.x as int)),
            pixels.y == saturated(product(self.scale_of(), size.y as int)),
    {
        Vec2 { x: self.transform_length(size.x), y: self.transform_length(size.y) }
    }

    /// The place on the screen of a point of the playfield, counted from the
    /// top left corner of the playfield.
    pub fn transform_point(&self, point: Vec2) -> (pixels: Vec2)
        ensures
            pixels.x == saturated(product(self.scale_of(), point.x as int) + self.origin_of().x),
            pixels.y == saturated(product(self.scale_of(), point.y as int) + self.origin_of().y),
    {
        let scale: i128 = self.scale() as i128;
        let origin = self.origin();
        assert(-0x8000_0000_0000_0000 * 0x8000_0000_0000_0000 <= scale * point.x
            <= 0x8000_0000_0000_0000 * 0x8000_0000_0000_0000) by (nonlinear_arith)
            requires
                0 <= scale <= 0x8000_0000_0000_0000,
                -0x8000_0000_0000_0000 <= point.x <= 0x8000_0000_0000_0000,
        ;
        assert(-0x8000_0000_0000_0000 * 0x8000_0000_0000_0000 <= scale * point.y
            <= 0x8000_0000_0000_0000 * 0x8000_0000_0000_0000) by (nonlinear_arith)
            requires
                0 <= scale <= 0x8000_0000_0000_0000,
                -0x8000_0000_0000_0000 <= point.y <= 0x8000_0000_0000_0000,
        ;
        Vec2 {
            x: saturate(multiply(scale, point.x as i128) + origin.x as i128),
            y: saturate(multiply(scale, point.y as i128) + origin.y as i128),
        }
    }

    /// The length on the playfield of a length on the screen. There is none
    /// on a screen without extent.
    pub fn untransform_length(&self, pixels: i64) -> (length: Option<i64>)
        ensures
            self.scale_of() > 0 ==> length == Some(
                saturated(quotient(pixels as int, self.scale_of())) as i64,
            ),
            self.scale_of() <= 0 ==> length.is_none(),
    {
        let scale: i64 = self.scale();
        if scale <= 0 {
            None
        } else {
            let scaled: i128 = (pixels as i128) * 1_000_000;
            Some(saturate(floor_div(scaled, scale as i128)))
        }
    }

    /// The four borders around the playfield: left, right, top and bottom.
    /// Each is as long as the playfield and as wide as the playfield is far
    /// from the edge, so that two of them at least are empty.
    pub fn borders(&self) -> (borders: [Rect; 4])
        ensures
            borders[0] == (Rect {
                x: 0,
                y: 0,
                width: self.origin_of().x,
                height: product(self.scale_of(), HEIGHT as int) as i64,
            }),
            borders[1] == (Rect {
                x: (self.origin_of().x + product(self.scale_of(), WIDTH as int)) as i64,
                y: 0,
                width: self.origin_of().x,
                height: product(self.scale_of(), HEIGHT as int) as i64,
            }),
            borders[2] == (Rect {
                x: 0,
                y: 0,
                width: product(self.scale_of(), WIDTH as int) as i64,
                height: self.origin_of().y,
            }),
            borders[3] == (Rect {
                x: 0,
                y: (self.origin_of().y + product(self.scale_of(), HEIGHT as int)) as i64,
                width: product(self.scale_of(), WIDTH as int) as i64,
                height: self.origin_of().y,
            }),
    {
        let size = self.playfield_size();
        let origin = self.origin();
        [
            Rect { x: 0, y: 0, width: origin.x, height: size.y },
            Rect { x: origin.x + size.x, y: 0, width: origin.x, height: size.y },
            Rect { x: 0, y: 0, width: size.x, height: origin.y },
            Rect { x: 0, y: origin.y + size.y, width: size.x, height: origin.y },
        ]
    }
}

} // verus!
