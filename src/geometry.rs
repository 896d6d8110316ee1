//! Positions and boxes of the playing field.
//!
//! Lengths are whole sub-pixels: a thousand of them make one pixel, so every
//! distance the game uses is exact.
use vstd::prelude::*;

verus! {

/// Sub-pixels in one pixel.
pub const SUBPIXELS_PER_PIXEL: i64 = 1000;

/// Edge of the square sprite texture, at a scale of one.
pub const SPRITE_DIMENSION: i64 = 64_000;

/// Largest coordinate, in absolute value, that a body may have while in play.
pub const COORD_LIMIT: i64 = 0x1000_0000_0000_0000;

/// Largest width or height of a body.
pub const SIZE_LIMIT: i64 = 0x1000_0000_0000_0000;

/// A point of the field; x grows to the right, y upwards.
#[derive(PartialEq, Eq, Structural, Clone, Copy, Debug)]
pub struct Point {
    pub x: i64,
    pub y: i64,
}

/// An axis-aligned box, given by its centre and its full width and height.
#[derive(PartialEq, Eq, Structural, Clone, Copy, Debug)]
pub struct Body {
    pub center: Point,
    pub width: i64,
    pub height: i64,
}

impl Point {
    pub open spec fn in_play(self) -> bool {
        -COORD_LIMIT <= self.x <= COORD_LIMIT && -COORD_LIMIT <= self.y <= COORD_LIMIT
    }
}

impl Body {
    /// The centre lies in play and the size is neither negative nor too large.
    pub open spec fn wf(self) -> bool {
        self.center.in_play() && 0 <= self.width <= SIZE_LIMIT && 0 <= self.height <= SIZE_LIMIT
    }

    /// Doubled left edge: twice the coordinates keep the half size whole.
    pub open spec fn min_x2(self) -> int {
        2 * self.center.x - self.width
    }

    pub open spec fn max_x2(self) -> int {
        2 * self.center.x + self.width
    }

    pub open spec fn min_y2(self) -> int {
        2 * self.center.y - self.height
    }

    pub open spec fn max_y2(self) -> int {
        2 * self.center.y + self.height
    }

    /// Whether the body is well formed.
    pub fn in_play(&self) -> (r: bool)
        ensures
            r == self.wf(),
    {
        -COORD_LIMIT <= self.center.x && self.center.x <= COORD_LIMIT && -COORD_LIMIT
            <= self.center.y && self.center.y <= COORD_LIMIT && 0 <= self.width && self.width
            <= SIZE_LIMIT && 0 <= self.height && self.height <= SIZE_LIMIT
    }

    /// A body of the sprite's size, centred on `center`.
    pub open spec fn sprite(center: Point) -> Body {
        Body { center, width: SPRITE_DIMENSION, height: SPRITE_DIMENSION }
    }

    pub fn sprite_at(center: Point) -> (r: Body)
        ensures
            r == Body::sprite(center),
    {
        Body { center, width: SPRITE_DIMENSION, height: SPRITE_DIMENSION }
    }
}

/// The two boxes share interior: each starts strictly before the other ends,
/// on both axes. Boxes that only touch at an edge do not overlap.
pub open spec fn overlaps(a: Body, b: Body) -> bool {
    a.min_x2() < b.max_x2() && a.max_x2() > b.min_x2() && a.min_y2() < b.max_y2() && a.max_y2()
        > b.min_y2()
}

/// Whether `a` and `b` overlap.
pub fn collide(a: &Body, b: &Body) -> (r: bool)
    requires
        a.wf(),
        b.wf(),
    ensures
        r == overlaps(*a, *b),
{
    let a_min_x = 2 * a.center.x as i128 - a.width as i128;
    let a_max_x = 2 * a.center.x as i128 + a.width as i128;
    let a_min_y = 2 * a.center.y as i128 - a.height as i128;
    let a_max_y = 2 * a.center.y as i128 + a.height as i128;
    let b_min_x = 2 * b.center.x as i128 - b.width as i128;
    let b_max_x = 2 * b.center.x as i128 + b.width as i128;
    let b_min_y = 2 * b.center.y as i128 - b.height as i128;
    let b_max_y = 2 * b.center.y as i128 + b.height as i128;
    a_min_x < b_max_x && a_max_x > b_min_x && a_min_y < b_max_y && a_max_y > b_min_y
}

/// The overlap test is symmetric.
pub proof fn lemma_overlaps_symmetric(a: Body, b: Body)
    ensures
        overlaps(a, b) == overlaps(b, a),
{
}

/// The four corners of a body, as drawn around a collider.
#[derive(PartialEq, Eq, Structural, Clone, Copy, Debug)]
pub struct Outline {
    pub top_left: Point,
    pub top_right: Point,
    pub bottom_left: Point,
    pub bottom_right: Point,
}

/// The corners of `b`, with its half size rounded towards the centre.
pub fn collider_outline(b: &Body) -> (r: Outline)
    requires
        b.wf(),
    ensures
        r.top_left == (Point { x: (b.center.x - b.width / 2) as i64, y: (b.center.y + b.height / 2) as i64 }),
        r.top_right == (Point { x: (b.center.x + b.width / 2) as i64, y: (b.center.y + b.height / 2) as i64 }),
        r.bottom_left == (Point { x: (b.center.x - b.width / 2) as i64, y: (b.center.y - b.height / 2) as i64 }),
        r.bottom_right == (Point { x: (b.center.x + b.width / 2) as i64, y: (b.center.y - b.height / 2) as i64 }),
{
    let left = b.center.x - b.width / 2;
    let right = b.center.x + b.width / 2;
    let top = b.center.y + b.height / 2;
    let bottom = b.center.y - b.height / 2;
    Outline {
        top_left: Point { x: left, y: top },
        top_right: Point { x: right, y: top },
        bottom_left: Point { x: left, y: bottom },
        bottom_right: Point { x: right, y: bottom },
    }
}

} // verus!
