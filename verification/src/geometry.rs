//! Points and rectangles in the shared global coordinate space that all
//! displays and windows live in.

use vstd::prelude::*;

verus! {

/// A position in the global coordinate space.
#[derive(Clone, Copy, PartialEq, Eq, Structural, Debug)]
pub struct Point {
    pub x: i64,
    pub y: i64,
}

/// An axis-aligned rectangle, stored as its origin and its size.
#[derive(Clone, Copy, PartialEq, Eq, Structural, Debug)]
pub struct Rect {
    pub x: i64,
    pub y: i64,
    pub width: i64,
    pub height: i64,
}

impl Rect {
    /// A usable rectangle: the size is non-negative and the far corner is
    /// still representable, so edge arithmetic cannot overflow.
    pub open spec fn wf(self) -> bool {
        &&& 0 <= self.width
        &&& 0 <= self.height
        &&& self.x + self.width <= i64::MAX
        &&& self.y + self.height <= i64::MAX
    }

    /// Membership test used to decide which display holds the pointer:
    /// the left and top edges belong to the rectangle, the right and
    /// bottom edges do not.
    pub open spec fn spec_contains(self, p: Point) -> bool {
        &&& self.x <= p.x < self.x + self.width
        &&& self.y <= p.y < self.y + self.height
    }

    /// Whether this rectangle contains the point.
    pub fn contains(&self, p: Point) -> (r: bool)
        requires
            self.wf(),
        ensures
            r == self.spec_contains(p),
    {
        self.x <= p.x && p.x < self.x + self.width && self.y <= p.y && p.y < self.y + self.height
    }

    /// The geometric midpoint: each coordinate is the origin plus half
    /// the size along that axis.
    pub open spec fn spec_mid_point(self) -> Point {
        Point { x: (self.x + self.width / 2) as i64, y: (self.y + self.height / 2) as i64 }
    }

    /// Midpoint of the rectangle, the place a warped pointer lands.
    pub fn mid_point(&self) -> (p: Point)
        requires
            self.wf(),
        ensures
            p == self.spec_mid_point(),
    {
        let half_w: i64 = self.width / 2;
        let half_h: i64 = self.height / 2;
        Point { x: self.x + half_w, y: self.y + half_h }
    }
}

} // verus!
