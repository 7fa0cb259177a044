//! Integer points and the scalar helpers the interaction geometry is built on.

use vstd::prelude::*;
use crate::consts::COORDINATE_LIMIT;

verus! {

/// A position or an extent on the canvas.
#[derive(Clone, Copy, Debug, PartialEq, Eq, Hash, Structural)]
pub struct Point {
    pub x: i64,
    pub y: i64,
}

/// An axis-aligned box given by two of its opposite corners.
pub type Bounds = [Point; 2];

/// The magnitude of `v`.
pub open spec fn abs_int(v: int) -> int {
    if v < 0 { -v } else { v }
}

/// `magnitude` with the sign of `v`, zero counting as positive.
pub open spec fn with_sign_of(magnitude: int, v: int) -> int {
    if v < 0 { -magnitude } else { magnitude }
}

/// The larger of `a` and `b`.
pub open spec fn max_int(a: int, b: int) -> int {
    if a >= b { a } else { b }
}

/// The smaller of `a` and `b`.
pub open spec fn min_int(a: int, b: int) -> int {
    if a <= b { a } else { b }
}

/// The midpoint of `a` and `b`, rounded down.
pub open spec fn midpoint_int(a: int, b: int) -> int {
    (a + b) / 2
}

/// The midpoint of `a` and `b`, rounded up.
pub open spec fn midpoint_up_int(a: int, b: int) -> int {
    (a + b + 1) / 2
}

impl Point {
    /// Both coordinates lie within `limit` of zero.
    pub open spec fn within(self, limit: int) -> bool {
        &&& -limit <= self.x <= limit
        &&& -limit <= self.y <= limit
    }

    /// The point is a position the canvas can hold.
    pub open spec fn in_canvas(self) -> bool {
        self.within(COORDINATE_LIMIT as int)
    }

    /// The point with the given coordinates.
    pub fn new(x: i64, y: i64) -> (point: Point)
        ensures
            point == (Point { x, y }),
    {
        Point { x, y }
    }

    pub fn zero() -> (point: Point)
        ensures
            point == (Point { x: 0, y: 0 }),
    {
        Point { x: 0, y: 0 }
    }

    /// Whether the point is a position the canvas can hold.
    pub fn is_in_canvas(&self) -> (inside: bool)
        ensures
            inside == self.in_canvas(),
    {
        -COORDINATE_LIMIT <= self.x && self.x <= COORDINATE_LIMIT && -COORDINATE_LIMIT <= self.y
            && self.y <= COORDINATE_LIMIT
    }
}

/// Both corners of the box are positions the canvas can hold.
pub open spec fn bounds_in_canvas(bounds: Bounds) -> bool {
    bounds[0].in_canvas() && bounds[1].in_canvas()
}

/// Half of `value`, rounded down.
pub fn halve(value: i64) -> (half: i64)
    ensures
        half == value / 2,
{
    if value >= 0 {
        value / 2
    } else {
        let m: i64 = -(value + 1);
        -(m / 2) - 1
    }
}

/// The midpoint of two coordinates, rounded down; it cannot overflow.
pub fn midpoint(a: i64, b: i64) -> (mid: i64)
    ensures
        mid == midpoint_int(a as int, b as int),
{
    let sum: i128 = a as i128 + b as i128;
    let half: i128 = if sum >= 0 {
        sum / 2
    } else {
        let m: i128 = -(sum + 1);
        -(m / 2) - 1
    };
    half as i64
}

/// The midpoint of two coordinates, rounded up; it cannot overflow.
pub fn midpoint_up(a: i64, b: i64) -> (mid: i64)
    ensures
        mid == midpoint_up_int(a as int, b as int),
{
    let sum: i128 = a as i128 + b as i128 + 1;
    let half: i128 = if sum >= 0 {
        sum / 2
    } else {
        let m: i128 = -(sum + 1);
        -(m / 2) - 1
    };
    half as i64
}

/// Whether `a - b` is below `threshold`; the difference cannot overflow.
pub fn diff_lt(a: i64, b: i64, threshold: i64) -> (below: bool)
    ensures
        below == (a - b < threshold),
{
    let d: i128 = a as i128 - b as i128;
    d < threshold as i128
}

/// Whether `a` and `b` are less than `threshold` apart.
pub fn abs_diff_lt(a: i64, b: i64, threshold: i64) -> (near: bool)
    ensures
        near == (abs_int(a - b) < threshold),
{
    let d: i128 = a as i128 - b as i128;
    let t: i128 = threshold as i128;
    if d < 0 { -d < t } else { d < t }
}

} // verus!
