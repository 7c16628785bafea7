//! Logical-coordinate geometry: points, sizes and rectangles in the
//! global compositing space, with containment and overlap tests used by
//! hit-testing and by per-output render-element selection.

use vstd::prelude::*;

verus! {

/// A point in logical coordinates.
#[derive(Clone, Copy, PartialEq, Eq, Structural, Debug)]
pub struct Point {
    pub x: i32,
    pub y: i32,
}

/// A size in logical coordinates.
#[derive(Clone, Copy, PartialEq, Eq, Structural, Debug)]
pub struct Size {
    pub w: i32,
    pub h: i32,
}

/// An axis-aligned rectangle: a location (its top-left corner) and a size.
#[derive(Clone, Copy, PartialEq, Eq, Structural, Debug)]
pub struct Rect {
    pub loc: Point,
    pub size: Size,
}

impl Rect {
    /// Whether `p` lies inside `self` (edges on the left/top included,
    /// right/bottom excluded, as is usual for pixel rectangles).
    pub open spec fn spec_contains(self, p: Point) -> bool {
        &&& self.loc.x <= p.x < self.loc.x + self.size.w
        &&& self.loc.y <= p.y < self.loc.y + self.size.h
    }

    /// Whether `self` and `other` share at least one point.
    pub open spec fn spec_overlaps(self, other: Rect) -> bool {
        &&& self.loc.x < other.loc.x + other.size.w
        &&& other.loc.x < self.loc.x + self.size.w
        &&& self.loc.y < other.loc.y + other.size.h
        &&& other.loc.y < self.loc.y + self.size.h
    }

    /// Containment test; arithmetic is done in 64 bits so that corner
    /// coordinates near the `i32` limits cannot overflow.
    pub fn contains(&self, p: Point) -> (r: bool)
        ensures
            r == self.spec_contains(p),
    {
        let x = p.x as i64;
        let y = p.y as i64;
        let lx = self.loc.x as i64;
        let ly = self.loc.y as i64;
        let w = self.size.w as i64;
        let h = self.size.h as i64;
        lx <= x && x < lx + w && ly <= y && y < ly + h
    }

    /// Overlap test, in 64-bit arithmetic for the same reason.
    pub fn overlaps(&self, other: &Rect) -> (r: bool)
        ensures
            r == self.spec_overlaps(*other),
    {
        let ax = self.loc.x as i64;
        let ay = self.loc.y as i64;
        let aw = self.size.w as i64;
        let ah = self.size.h as i64;
        let bx = other.loc.x as i64;
        let by = other.loc.y as i64;
        let bw = other.size.w as i64;
        let bh = other.size.h as i64;
        ax < bx + bw && bx < ax + aw && ay < by + bh && by < ay + ah
    }
}

} // verus!
