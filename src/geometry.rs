//! Points, vectors and axis-aligned boxes.
use vstd::prelude::*;

verus! {

/// A point or a vector of the plane, in sub-pixels (or sub-pixels per tick).
#[derive(Clone, Copy, Debug, PartialEq, Eq, Structural)]
pub struct Vec2 {
    pub x: i64,
    pub y: i64,
}

impl Vec2 {
    pub fn new(x: i64, y: i64) -> (r: Vec2)
        ensures
            r.x == x,
            r.y == y,
    {
        Vec2 { x, y }
    }

    /// Both components can be negated without overflow.
    pub open spec fn negatable(self) -> bool {
        self.x > i64::MIN && self.y > i64::MIN
    }

    /// The squared Euclidean length.
    pub open spec fn sq_len(self) -> int {
        self.x * self.x + self.y * self.y
    }
}

/// An axis-aligned box given by its center and its half-extents.
#[derive(Clone, Copy, Debug, PartialEq, Eq, Structural)]
pub struct Aabb {
    pub center: Vec2,
    pub half: Vec2,
}

impl Aabb {
    pub fn new(center: Vec2, half: Vec2) -> (r: Aabb)
        ensures
            r.center == center,
            r.half == half,
    {
        Aabb { center, half }
    }

    pub open spec fn min_x(self) -> int {
        self.center.x - self.half.x
    }

    pub open spec fn max_x(self) -> int {
        self.center.x + self.half.x
    }

    pub open spec fn min_y(self) -> int {
        self.center.y - self.half.y
    }

    pub open spec fn max_y(self) -> int {
        self.center.y + self.half.y
    }

    /// The open interiors of the two boxes meet.
    pub open spec fn overlaps(self, other: Aabb) -> bool {
        &&& self.min_x() < other.max_x()
        &&& self.max_x() > other.min_x()
        &&& self.min_y() < other.max_y()
        &&& self.max_y() > other.min_y()
    }

    /// Whether the two boxes overlap.
    pub fn intersects(&self, other: &Aabb) -> (r: bool)
        ensures
            r == self.overlaps(*other),
    {
        let a_min_x = self.center.x as i128 - self.half.x as i128;
        let a_max_x = self.center.x as i128 + self.half.x as i128;
        let a_min_y = self.center.y as i128 - self.half.y as i128;
        let a_max_y = self.center.y as i128 + self.half.y as i128;
        let b_min_x = other.center.x as i128 - other.half.x as i128;
        let b_max_x = other.center.x as i128 + other.half.x as i128;
        let b_min_y = other.center.y as i128 - other.half.y as i128;
        let b_max_y = other.center.y as i128 + other.half.y as i128;
        a_min_x < b_max_x && a_max_x > b_min_x && a_min_y < b_max_y && a_max_y > b_min_y
    }
}

} // verus!
