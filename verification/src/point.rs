//! A 2D point on the field.
//!
//! Coordinates are stored as integers in tenths of a yard, so every position
//! and path endpoint of the built-in data is represented exactly and all
//! arithmetic on positions is exact.

use vstd::prelude::*;

verus! {

/// A 2D point with integer coordinates, in tenths of a yard.
#[derive(Debug, Clone, Copy, PartialEq, Eq, Structural, Hash)]
pub struct Point2D {
    pub x: i64,
    pub y: i64,
}

/// Bound on coordinates accepted by [`Point2D::distance_squared`]; squares
/// and their sum stay within `i64` for coordinates in this range.
pub const COORD_LIMIT: i64 = 1_000_000_000;

impl Point2D {
    /// Creates a new 2D point.
    pub fn new(x: i64, y: i64) -> (r: Self)
        ensures
            r == (Point2D { x, y }),
    {
        Point2D { x, y }
    }

    /// The origin.
    pub fn zero() -> (r: Self)
        ensures
            r == (Point2D { x: 0 as i64, y: 0 as i64 }),
    {
        Point2D { x: 0, y: 0 }
    }

    /// The squared Euclidean distance to another point, exact in integer
    /// arithmetic.
    pub fn distance_squared(&self, other: &Point2D) -> (r: i64)
        requires
            -COORD_LIMIT <= self.x <= COORD_LIMIT,
            -COORD_LIMIT <= self.y <= COORD_LIMIT,
            -COORD_LIMIT <= other.x <= COORD_LIMIT,
            -COORD_LIMIT <= other.y <= COORD_LIMIT,
        ensures
            r == (self.x - other.x) * (self.x - other.x) + (self.y - other.y) * (self.y - other.y),
    {
        let dx: i64 = self.x - other.x;
        let dy: i64 = self.y - other.y;
        proof {
            assert(dx * dx <= 4_000_000_000_000_000_000 && dx * dx >= 0) by (nonlinear_arith)
                requires
                    -2_000_000_000 <= dx <= 2_000_000_000,
            ;
            assert(dy * dy <= 4_000_000_000_000_000_000 && dy * dy >= 0) by (nonlinear_arith)
                requires
                    -2_000_000_000 <= dy <= 2_000_000_000,
            ;
        }
        dx * dx + dy * dy
    }
}

impl From<(i64, i64)> for Point2D {
    fn from(t: (i64, i64)) -> (r: Self)
        ensures
            r == (Point2D { x: t.0, y: t.1 }),
    {
        Point2D { x: t.0, y: t.1 }
    }
}

impl vstd::std_specs::convert::FromSpecImpl<(i64, i64)> for Point2D {
    open spec fn obeys_from_spec() -> bool {
        true
    }

    open spec fn from_spec(t: (i64, i64)) -> Self {
        Point2D { x: t.0, y: t.1 }
    }
}

impl From<Point2D> for (i64, i64) {
    fn from(p: Point2D) -> (r: Self)
        ensures
            r == (p.x, p.y),
    {
        (p.x, p.y)
    }
}

impl vstd::std_specs::convert::FromSpecImpl<Point2D> for (i64, i64) {
    open spec fn obeys_from_spec() -> bool {
        true
    }

    open spec fn from_spec(p: Point2D) -> Self {
        (p.x, p.y)
    }
}

} // verus!
