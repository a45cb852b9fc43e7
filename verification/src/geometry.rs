//! Integer geometry on the map grid. Coordinates are fixed-point cells, so every
//! distance comparison is exact.

use vstd::prelude::*;

verus! {

/// Grid units per map cell that the standard settings assume.
pub const GRID: u32 = 100;

/// A position on the map, in fixed-point grid units.
#[derive(Clone, Copy, Debug, PartialEq, Eq)]
pub struct Point {
    pub x: i32,
    pub y: i32,
}

/// Squared euclidean distance between two points.
pub open spec fn dist_sq(a: Point, b: Point) -> int {
    (a.x - b.x) * (a.x - b.x) + (a.y - b.y) * (a.y - b.y)
}

/// Whether `a` lies strictly inside the circle of `radius` around `b`.
pub open spec fn closer_than(a: Point, b: Point, radius: u32) -> bool {
    dist_sq(a, b) < radius * radius
}

/// `v` brought into the range of a coordinate.
pub open spec fn clamp_coord(v: int) -> i32 {
    if v < i32::MIN {
        i32::MIN
    } else if v > i32::MAX {
        i32::MAX
    } else {
        v as i32
    }
}

/// The mirror image of `threat` in `p`: the point as far behind `p` as `threat`
/// is in front of it, each coordinate kept on the map grid.
pub open spec fn mirrored(p: Point, threat: Point) -> Point {
    Point { x: clamp_coord(2 * p.x - threat.x), y: clamp_coord(2 * p.y - threat.y) }
}

proof fn square_bound(d: int)
    requires
        -0xFFFF_FFFF <= d <= 0xFFFF_FFFF,
    ensures
        0 <= d * d <= 0xFFFF_FFFF * 0xFFFF_FFFF,
{
    assert(0 <= d * d <= 0xFFFF_FFFF * 0xFFFF_FFFF) by (nonlinear_arith)
        requires
            -0xFFFF_FFFF <= d <= 0xFFFF_FFFF,
    ;
}

/// Computes the squared distance without loss.
pub fn distance_squared(a: Point, b: Point) -> (d: u128)
    ensures
        d == dist_sq(a, b),
        d <= 2 * (0xFFFF_FFFF * 0xFFFF_FFFF),
{
    let dx: i128 = a.x as i128 - b.x as i128;
    let dy: i128 = a.y as i128 - b.y as i128;
    proof {
        square_bound(dx as int);
        square_bound(dy as int);
    }
    let sx: i128 = dx * dx;
    let sy: i128 = dy * dy;
    (sx + sy) as u128
}

/// Tests `a` against the open circle of `radius` around `b`.
pub fn is_closer(a: Point, b: Point, radius: u32) -> (inside: bool)
    ensures
        inside == closer_than(a, b, radius),
{
    let r: u128 = radius as u128;
    proof {
        square_bound(radius as int);
    }
    distance_squared(a, b) < r * r
}

fn clamp(v: i64) -> (c: i32)
    ensures
        c == clamp_coord(v as int),
{
    if v < i32::MIN as i64 {
        i32::MIN
    } else if v > i32::MAX as i64 {
        i32::MAX
    } else {
        v as i32
    }
}

/// The point to fall back to when `threat` presses on a unit standing at `p`.
pub fn away_from(p: Point, threat: Point) -> (q: Point)
    ensures
        q == mirrored(p, threat),
{
    let x: i64 = 2 * (p.x as i64) - threat.x as i64;
    let y: i64 = 2 * (p.y as i64) - threat.y as i64;
    Point { x: clamp(x), y: clamp(y) }
}

} // verus!
