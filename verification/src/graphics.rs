//! Plain geometry and color values shared by the renderer and its caches.
//!
//! All coordinates are integers in a single logical coordinate space; the
//! unverified shell converts them to the canvas's floating point units.
//! Rectangle operations keep their operands inside explicit bounds so
//! every computation is proved free of overflow.

use vstd::prelude::*;
use vstd::math::{max, min};

verus! {

/// Largest magnitude allowed for item geometry and draw positions.
pub const GEOM_LIMIT: i64 = 0x8000_0000;

/// Largest magnitude a rectangle can reach after one translation by a
/// draw position; clip rectangles live within this bound.
pub const TRANSLATED_LIMIT: i64 = 0x1_0000_0000;

/// An RGBA color with 8 bit channels.
#[derive(Clone, Copy, PartialEq, Eq, Structural, Debug)]
pub struct Color {
    pub red: u8,
    pub green: u8,
    pub blue: u8,
    pub alpha: u8,
}

/// A position in the shared logical coordinate space.
#[derive(Clone, Copy, PartialEq, Eq, Structural, Debug)]
pub struct Point {
    pub x: i64,
    pub y: i64,
}

impl Point {
    /// All coordinates within `b` in magnitude.
    pub open spec fn bounded(self, b: int) -> bool {
        &&& -b <= self.x <= b
        &&& -b <= self.y <= b
    }
}

/// An axis-aligned rectangle; a non-positive width or height makes it empty.
#[derive(Clone, Copy, PartialEq, Eq, Structural, Debug)]
pub struct Rect {
    pub x: i64,
    pub y: i64,
    pub width: i64,
    pub height: i64,
}

impl Rect {
    /// All fields within `b` in magnitude.
    pub open spec fn bounded(self, b: int) -> bool {
        &&& -b <= self.x <= b
        &&& -b <= self.y <= b
        &&& -b <= self.width <= b
        &&& -b <= self.height <= b
    }

    /// An empty rectangle covers no area and intersects nothing.
    pub open spec fn spec_is_empty(&self) -> bool {
        self.width <= 0 || self.height <= 0
    }

    #[verifier::when_used_as_spec(spec_is_empty)]
    pub fn is_empty(&self) -> (r: bool)
        ensures
            r == self.spec_is_empty(),
    {
        self.width <= 0 || self.height <= 0
    }

    /// The rectangle moved by `p`.
    pub open spec fn spec_translate(self, p: Point) -> Rect {
        Rect { x: (self.x + p.x) as i64, y: (self.y + p.y) as i64, width: self.width, height: self.height }
    }

    pub fn translate(&self, p: Point) -> (r: Rect)
        requires
            self.bounded(GEOM_LIMIT as int),
            p.bounded(GEOM_LIMIT as int),
        ensures
            r == self.spec_translate(p),
            r.bounded(TRANSLATED_LIMIT as int),
    {
        Rect { x: self.x + p.x, y: self.y + p.y, width: self.width, height: self.height }
    }

    /// The largest rectangle covered by both operands; empty operands and
    /// disjoint operands give a rectangle of zero width or height.
    pub open spec fn spec_intersection(self, other: Rect) -> Rect {
        let x = max(self.x as int, other.x as int);
        let y = max(self.y as int, other.y as int);
        let x2 = min(self.x + self.width, other.x + other.width);
        let y2 = min(self.y + self.height, other.y + other.height);
        Rect {
            x: x as i64,
            y: y as i64,
            width: (if x2 > x { x2 - x } else { 0 }) as i64,
            height: (if y2 > y { y2 - y } else { 0 }) as i64,
        }
    }

    pub fn intersection(&self, other: &Rect) -> (r: Rect)
        requires
            self.bounded(TRANSLATED_LIMIT as int),
            other.bounded(TRANSLATED_LIMIT as int),
        ensures
            r == self.spec_intersection(*other),
            r.bounded(TRANSLATED_LIMIT as int),
    {
        let x: i64 = if self.x > other.x { self.x } else { other.x };
        let y: i64 = if self.y > other.y { self.y } else { other.y };
        let self_x2: i64 = self.x + self.width;
        let other_x2: i64 = other.x + other.width;
        let self_y2: i64 = self.y + self.height;
        let other_y2: i64 = other.y + other.height;
        let x2: i64 = if self_x2 < other_x2 { self_x2 } else { other_x2 };
        let y2: i64 = if self_y2 < other_y2 { self_y2 } else { other_y2 };
        Rect {
            x,
            y,
            width: if x2 > x { x2 - x } else { 0 },
            height: if y2 > y { y2 - y } else { 0 },
        }
    }
}

} // verus!
