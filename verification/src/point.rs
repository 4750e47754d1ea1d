//! Control points: 2D coordinates in fixed-point screen units, with the
//! range bound that keeps all the arithmetic of this crate exact in `u64`,
//! and the squared-distance test used for drag hit-testing.

use vstd::prelude::*;

verus! {

/// Largest coordinate value the library accepts. The bound keeps every
/// intermediate of the corner-cut formula (`3 * x + y`) and of the squared
/// distance (`dx * dx + dy * dy`) within `u64`.
pub const MAX_COORD: u64 = 2_000_000_000;

/// A 2D control point in fixed-point screen units.
#[derive(Clone, Copy, PartialEq, Eq, Structural, Debug)]
pub struct Point {
    pub x: u64,
    pub y: u64,
}

/// A point whose coordinates the library's arithmetic can handle exactly.
pub open spec fn point_in_range(p: Point) -> bool {
    p.x <= MAX_COORD && p.y <= MAX_COORD
}

/// Every point of the sequence is in range.
pub open spec fn points_in_range(s: Seq<Point>) -> bool {
    forall|i: int| 0 <= i < s.len() ==> point_in_range(#[trigger] s[i])
}

/// Squared Euclidean distance between two points, as a mathematical integer.
pub open spec fn dist_sq(a: Point, b: Point) -> int {
    (a.x - b.x) * (a.x - b.x) + (a.y - b.y) * (a.y - b.y)
}

/// The hit-test predicate: `p` lies within `radius` of `pos`.
pub open spec fn within_radius(p: Point, pos: Point, radius: u64) -> bool {
    dist_sq(p, pos) <= radius * radius
}

/// Decides the hit-test predicate executably.
pub fn is_within_radius(p: Point, pos: Point, radius: u64) -> (r: bool)
    requires
        point_in_range(p),
        point_in_range(pos),
        radius <= MAX_COORD,
    ensures
        r == within_radius(p, pos, radius),
{
    let dx: u64 = if p.x >= pos.x {
        p.x - pos.x
    } else {
        pos.x - p.x
    };
    let dy: u64 = if p.y >= pos.y {
        p.y - pos.y
    } else {
        pos.y - p.y
    };
    proof {
        assert((p.x - pos.x) * (p.x - pos.x) == dx * dx) by (nonlinear_arith)
            requires
                dx == p.x - pos.x || dx == pos.x - p.x,
        ;
        assert((p.y - pos.y) * (p.y - pos.y) == dy * dy) by (nonlinear_arith)
            requires
                dy == p.y - pos.y || dy == pos.y - p.y,
        ;
        assert(dx * dx <= MAX_COORD * MAX_COORD) by (nonlinear_arith)
            requires
                0 <= dx <= MAX_COORD,
        ;
        assert(dy * dy <= MAX_COORD * MAX_COORD) by (nonlinear_arith)
            requires
                0 <= dy <= MAX_COORD,
        ;
        assert(radius * radius <= MAX_COORD * MAX_COORD) by (nonlinear_arith)
            requires
                0 <= radius <= MAX_COORD,
        ;
    }
    dx * dx + dy * dy <= radius * radius
}

/// Copies a vector of points; the copy views equal to the original.
pub fn clone_points(v: &Vec<Point>) -> (r: Vec<Point>)
    ensures
        r@ == v@,
{
    let mut r: Vec<Point> = Vec::new();
    let mut i: usize = 0;
    while i < v.len()
        invariant
            i <= v@.len(),
            r@ == v@.take(i as int),
        decreases v@.len() - i,
    {
        r.push(v[i]);
        proof {
            assert(v@.take(i + 1) =~= v@.take(i as int).push(v@[i as int]));
        }
        i = i + 1;
    }
    proof {
        assert(v@.take(v@.len() as int) =~= v@);
    }
    r
}

} // verus!
