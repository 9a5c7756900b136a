//! Axis-aligned rectangles in fixed-point world or texel coordinates.

use vstd::prelude::*;

verus! {

use crate::fx::FX_ONE;
use crate::fx::fx_half;
use crate::vector::Vec2;
use vstd::math::min;
use vstd::math::max;

/// An axis-aligned rectangle given by its two corners.
#[derive(Debug, Copy, Clone, PartialEq, Eq, Structural, Default)]
pub struct Rect {
    pub min: Vec2,
    pub max: Vec2,
}

impl Rect {
    /// Builds the rectangle spanned by two arbitrary corner points.
    pub fn from_corners(p0: Vec2, p1: Vec2) -> (r: Rect)
        ensures
            r.min.x == min(p0.x as int, p1.x as int),
            r.min.y == min(p0.y as int, p1.y as int),
            r.max.x == max(p0.x as int, p1.x as int),
            r.max.y == max(p0.y as int, p1.y as int),
    {
        Rect {
            min: Vec2 {
                x: if p0.x <= p1.x { p0.x } else { p1.x },
                y: if p0.y <= p1.y { p0.y } else { p1.y },
            },
            max: Vec2 {
                x: if p0.x >= p1.x { p0.x } else { p1.x },
                y: if p0.y >= p1.y { p0.y } else { p1.y },
            },
        }
    }

    /// Builds the rectangle spanned by the two corner points
    /// `(x0, y0)` and `(x1, y1)`.
    pub fn new(x0: i64, y0: i64, x1: i64, y1: i64) -> (r: Rect)
        ensures
            r.min.x == min(x0 as int, x1 as int),
            r.min.y == min(y0 as int, y1 as int),
            r.max.x == max(x0 as int, x1 as int),
            r.max.y == max(y0 as int, y1 as int),
    {
        Rect::from_corners(Vec2 { x: x0, y: y0 }, Vec2 { x: x1, y: y1 })
    }

    /// Builds a rectangle from whole-pixel corner coordinates, scaling them
    /// into fixed point.  The corners are taken as given, `(x0, y0)` low and
    /// `(x1, y1)` high.
    pub fn new_u32(x0: u32, y0: u32, x1: u32, y1: u32) -> (r: Rect)
        ensures
            r.min.x == x0 * (FX_ONE as int),
            r.min.y == y0 * (FX_ONE as int),
            r.max.x == x1 * (FX_ONE as int),
            r.max.y == y1 * (FX_ONE as int),
    {
        Rect {
            min: Vec2 { x: (x0 as i64) * (FX_ONE as i64), y: (y0 as i64) * (FX_ONE as i64) },
            max: Vec2 { x: (x1 as i64) * (FX_ONE as i64), y: (y1 as i64) * (FX_ONE as i64) },
        }
    }

    /// Builds a rectangle of the given size centered on `origin`.  The size
    /// must be non-negative; each half-extent is half the size rounded down.
    pub fn from_center_size(origin: Vec2, size: Vec2) -> (r: Rect)
        requires
            0 <= size.x,
            0 <= size.y,
            i64::MIN <= origin.x - size.x / 2,
            origin.x + size.x / 2 <= i64::MAX,
            i64::MIN <= origin.y - size.y / 2,
            origin.y + size.y / 2 <= i64::MAX,
        ensures
            r.min.x == origin.x - size.x / 2,
            r.min.y == origin.y - size.y / 2,
            r.max.x == origin.x + size.x / 2,
            r.max.y == origin.y + size.y / 2,
    {
        let half_x: i64 = fx_half(size.x);
        let half_y: i64 = fx_half(size.y);
        Rect {
            min: Vec2 { x: origin.x - half_x, y: origin.y - half_y },
            max: Vec2 { x: origin.x + half_x, y: origin.y + half_y },
        }
    }

    /// The rectangle's extent on each axis.
    pub fn size(&self) -> (s: Vec2)
        requires
            self.max.x - self.min.x <= i64::MAX,
            i64::MIN <= self.max.x - self.min.x,
            self.max.y - self.min.y <= i64::MAX,
            i64::MIN <= self.max.y - self.min.y,
        ensures
            s.x == self.max.x - self.min.x,
            s.y == self.max.y - self.min.y,
    {
        Vec2 { x: self.max.x - self.min.x, y: self.max.y - self.min.y }
    }

    /// The rectangle's center, rounded toward negative infinity.
    pub fn center(&self) -> (c: Vec2)
        requires
            i64::MIN <= self.min.x + self.max.x <= i64::MAX,
            i64::MIN <= self.min.y + self.max.y <= i64::MAX,
        ensures
            c.x == (self.min.x + self.max.x) / 2,
            c.y == (self.min.y + self.max.y) / 2,
    {
        Vec2 { x: fx_half(self.min.x + self.max.x), y: fx_half(self.min.y + self.max.y) }
    }

    /// Whether the point lies inside the rectangle, borders included.
    pub fn contains(&self, point: Vec2) -> (r: bool)
        ensures
            r == (self.min.x <= point.x <= self.max.x && self.min.y <= point.y <= self.max.y),
    {
        self.min.x <= point.x && point.x <= self.max.x && self.min.y <= point.y
            && point.y <= self.max.y
    }

    pub fn left(&self) -> (v: i64)
        ensures
            v == self.min.x,
    {
        self.min.x
    }

    pub fn right(&self) -> (v: i64)
        ensures
            v == self.max.x,
    {
        self.max.x
    }

    pub fn top(&self) -> (v: i64)
        ensures
            v == self.max.y,
    {
        self.max.y
    }

    pub fn bottom(&self) -> (v: i64)
        ensures
            v == self.min.y,
    {
        self.min.y
    }
}

} // verus!
