//! Points and axis-aligned rectangles, the coordinate model for the whole
//! dungeon pipeline.
//!
//! A `Rect` spans the half-open cell ranges `[x1, x2)` and `[y1, y2)`: the
//! cells it covers are those with `x1 <= x < x2` and `y1 <= y < y2`.

use vstd::prelude::*;

verus! {

/// A grid position.
#[derive(Clone, Copy, Debug, PartialEq, Eq, Structural)]
pub struct Point {
    pub x: i32,
    pub y: i32,
}

impl Point {
    pub fn new(x: i32, y: i32) -> (r: Point)
        ensures
            r.x == x,
            r.y == y,
    {
        Point { x, y }
    }

    pub fn zero() -> (r: Point)
        ensures
            r.x == 0,
            r.y == 0,
    {
        Point { x: 0, y: 0 }
    }
}

/// An axis-aligned rectangle over the half-open ranges `[x1, x2) x [y1, y2)`.
#[derive(Clone, Copy, Debug, PartialEq, Eq, Structural)]
pub struct Rect {
    pub x1: i32,
    pub y1: i32,
    pub x2: i32,
    pub y2: i32,
}

impl Rect {
    /// The rectangle with corner `(x, y)`, width `w` and height `h`.
    pub fn with_size(x: i32, y: i32, w: i32, h: i32) -> (r: Rect)
        requires
            i32::MIN <= x + w <= i32::MAX,
            i32::MIN <= y + h <= i32::MAX,
        ensures
            r.x1 == x,
            r.y1 == y,
            r.x2 == x + w,
            r.y2 == y + h,
    {
        Rect { x1: x, y1: y, x2: x + w, y2: y + h }
    }

    /// The rectangle with the given corner coordinates.
    pub fn with_exact(x1: i32, y1: i32, x2: i32, y2: i32) -> (r: Rect)
        ensures
            r.x1 == x1,
            r.y1 == y1,
            r.x2 == x2,
            r.y2 == y2,
    {
        Rect { x1, y1, x2, y2 }
    }

    pub open spec fn spec_width(self) -> int {
        self.x2 - self.x1
    }

    pub open spec fn spec_height(self) -> int {
        self.y2 - self.y1
    }

    pub fn width(&self) -> (r: i32)
        requires
            self.x2 - self.x1 <= i32::MAX,
            i32::MIN <= self.x2 - self.x1,
        ensures
            r == self.spec_width(),
    {
        self.x2 - self.x1
    }

    pub fn height(&self) -> (r: i32)
        requires
            self.y2 - self.y1 <= i32::MAX,
            i32::MIN <= self.y2 - self.y1,
        ensures
            r == self.spec_height(),
    {
        self.y2 - self.y1
    }

    /// Whether two rectangles touch or overlap (closed-range test on the
    /// corner coordinates).
    pub open spec fn spec_intersect(self, other: Rect) -> bool {
        self.x1 <= other.x2 && self.x2 >= other.x1 && self.y1 <= other.y2 && self.y2 >= other.y1
    }

    pub fn intersect(&self, other: &Rect) -> (r: bool)
        ensures
            r == self.spec_intersect(*other),
    {
        self.x1 <= other.x2 && self.x2 >= other.x1 && self.y1 <= other.y2 && self.y2 >= other.y1
    }

    pub open spec fn spec_center(self) -> Point {
        Point { x: ((self.x1 + self.x2) / 2) as i32, y: ((self.y1 + self.y2) / 2) as i32 }
    }

    /// The midpoint of the corner coordinates, rounded toward zero.
    pub fn center(&self) -> (r: Point)
        requires
            0 <= self.x1,
            0 <= self.y1,
            self.x1 + self.x2 <= i32::MAX,
            self.y1 + self.y2 <= i32::MAX,
            self.x1 <= self.x2,
            self.y1 <= self.y2,
        ensures
            r == self.spec_center(),
            self.x1 <= r.x <= self.x2,
            self.y1 <= r.y <= self.y2,
    {
        Point { x: (self.x1 + self.x2) / 2, y: (self.y1 + self.y2) / 2 }
    }

    /// Whether the cell `(x, y)` lies inside this rectangle.
    pub open spec fn covers(self, x: int, y: int) -> bool {
        self.x1 <= x < self.x2 && self.y1 <= y < self.y2
    }

    /// Whether the cell `(x, y)` lies on this rectangle's border ring: its
    /// first or last covered column or row.
    pub open spec fn on_border(self, x: int, y: int) -> bool {
        self.covers(x, y) && (x == self.x1 || x == self.x2 - 1 || y == self.y1 || y == self.y2 - 1)
    }
}

} // verus!
