//! Points, distances and the impact point of a hit.
use vstd::prelude::*;

verus! {

/// A position in the world, in millimetres.
#[derive(Clone, Copy, Debug, PartialEq, Eq, Structural)]
pub struct Pos {
    pub x: i32,
    pub y: i32,
    pub z: i32,
}

/// A point that may lie slightly outside the range of `Pos` (an impact
/// point is raised above the characters), in millimetres.
#[derive(Clone, Copy, Debug, PartialEq, Eq, Structural)]
pub struct Point {
    pub x: i64,
    pub y: i64,
    pub z: i64,
}

pub open spec fn sq(v: int) -> int {
    v * v
}

/// Squared Euclidean distance between two positions, in mm².
pub open spec fn dist_sq(a: Pos, b: Pos) -> int {
    sq(a.x - b.x) + sq(a.y - b.y) + sq(a.z - b.z)
}

/// The distance from `a` to `b` is strictly below `range`.
pub open spec fn closer_than(a: Pos, b: Pos, range: int) -> bool {
    dist_sq(a, b) < range * range
}

/// The distance from `a` to `b` is strictly above `range`.
pub open spec fn farther_than(a: Pos, b: Pos, range: int) -> bool {
    dist_sq(a, b) > range * range
}

proof fn lemma_sq_bound(v: int)
    requires
        -4294967296 <= v <= 4294967296,
    ensures
        0 <= sq(v) <= 18446744073709551616,
{
    assert(0 <= v * v <= 18446744073709551616) by (nonlinear_arith)
        requires
            -4294967296 <= v <= 4294967296,
    ;
}

fn axis_sq(a: i32, b: i32) -> (r: i128)
    ensures
        r == sq(a - b),
        0 <= r <= 18446744073709551616,
{
    let d: i128 = a as i128 - b as i128;
    proof {
        lemma_sq_bound(d as int);
    }
    d * d
}

/// Squared distance between two positions.
pub fn distance_squared(a: Pos, b: Pos) -> (r: i128)
    ensures
        r == dist_sq(a, b),
{
    let dx = axis_sq(a.x, b.x);
    let dy = axis_sq(a.y, b.y);
    let dz = axis_sq(a.z, b.z);
    dx + dy + dz
}

fn range_sq(range: u32) -> (r: i128)
    ensures
        r == range * range,
{
    let w: i128 = range as i128;
    assert(0 <= w * w <= 18446744073709551616) by (nonlinear_arith)
        requires
            0 <= w <= 4294967296,
    ;
    w * w
}

/// Whether `a` and `b` are less than `range` millimetres apart.
pub fn is_closer_than(a: Pos, b: Pos, range: u32) -> (r: bool)
    ensures
        r == closer_than(a, b, range as int),
{
    distance_squared(a, b) < range_sq(range)
}

/// Whether `a` and `b` are more than `range` millimetres apart.
pub fn is_farther_than(a: Pos, b: Pos, range: u32) -> (r: bool)
    ensures
        r == farther_than(a, b, range as int),
{
    distance_squared(a, b) > range_sq(range)
}

/// The coordinate 30% of the way from `from` to `to`, rounded toward `from`.
pub open spec fn three_tenths(from: int, to: int) -> int {
    if to >= from {
        from + (to - from) * 3 / 10
    } else {
        from - (from - to) * 3 / 10
    }
}

/// Height added to an impact point, in millimetres.
pub const IMPACT_HEIGHT: i64 = 1000;

/// The point where a blow from `other` lands on `target`: 30% of the way
/// from `target` toward `other`, raised by `IMPACT_HEIGHT`.
pub open spec fn impact_spec(target: Pos, other: Pos) -> Point {
    Point {
        x: three_tenths(target.x as int, other.x as int) as i64,
        y: (three_tenths(target.y as int, other.y as int) + IMPACT_HEIGHT) as i64,
        z: three_tenths(target.z as int, other.z as int) as i64,
    }
}

fn lerp_three_tenths(from: i32, to: i32) -> (r: i64)
    ensures
        r == three_tenths(from as int, to as int),
        i32::MIN <= r <= i32::MAX,
{
    if to >= from {
        let d: i64 = to as i64 - from as i64;
        let q: i64 = d * 3 / 10;
        assert(0 <= q <= d) by (nonlinear_arith)
            requires
                q == d * 3 / 10,
                d >= 0,
        ;
        from as i64 + q
    } else {
        let d: i64 = from as i64 - to as i64;
        let q: i64 = d * 3 / 10;
        assert(0 <= q <= d) by (nonlinear_arith)
            requires
                q == d * 3 / 10,
                d >= 0,
        ;
        from as i64 - q
    }
}

/// The impact point of a blow from `other` on `target`.
pub fn impact_point(target: Pos, other: Pos) -> (r: Point)
    ensures
        r == impact_spec(target, other),
{
    Point {
        x: lerp_three_tenths(target.x, other.x),
        y: lerp_three_tenths(target.y, other.y) + IMPACT_HEIGHT,
        z: lerp_three_tenths(target.z, other.z),
    }
}

} // verus!
