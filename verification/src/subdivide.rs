//! Chaikin's corner-cutting subdivision: one refinement step replaces each
//! polyline segment by two points, at one quarter and at three quarters of
//! its length, and carries both endpoints through unchanged.

use vstd::prelude::*;

use crate::point::{Point, point_in_range, points_in_range, clone_points, MAX_COORD};

verus! {

/// The corner-cut point one quarter along the segment from `a` to `b`:
/// `(3*a + b) / 4` componentwise, in truncating fixed-point arithmetic.
pub open spec fn quarter_point(a: Point, b: Point) -> Point {
    Point { x: ((3 * a.x + b.x) / 4) as u64, y: ((3 * a.y + b.y) / 4) as u64 }
}

/// The corner-cut point three quarters along the segment from `a` to `b`:
/// `(a + 3*b) / 4` componentwise, in truncating fixed-point arithmetic.
pub open spec fn three_quarter_point(a: Point, b: Point) -> Point {
    Point { x: ((a.x + 3 * b.x) / 4) as u64, y: ((a.y + 3 * b.y) / 4) as u64 }
}

/// One Chaikin refinement step. An input of fewer than two points is
/// returned unchanged; an input of length `n >= 2` yields `2*n` points:
/// the first endpoint, the quarter and three-quarter points of each of the
/// `n - 1` segments in order, and the last endpoint.
pub open spec fn spec_subdivide(s: Seq<Point>) -> Seq<Point> {
    if s.len() < 2 {
        s
    } else {
        Seq::new(
            2 * s.len(),
            |k: int|
                if k == 0 {
                    s[0]
                } else if k == 2 * s.len() - 1 {
                    s[s.len() - 1]
                } else if k % 2 == 1 {
                    quarter_point(s[(k - 1) / 2], s[(k - 1) / 2 + 1])
                } else {
                    three_quarter_point(s[k / 2 - 1], s[k / 2])
                },
        )
    }
}

/// `k`-fold application of the refinement step.
pub open spec fn iter_subdivide(k: nat, s: Seq<Point>) -> Seq<Point>
    decreases k,
{
    if k == 0 {
        s
    } else {
        spec_subdivide(iter_subdivide((k - 1) as nat, s))
    }
}

/// Length law: one refinement step turns `n >= 2` points into
/// `2*(n - 1) + 2` points (two per segment, plus the two endpoints).
pub proof fn lemma_subdivide_len(s: Seq<Point>)
    requires
        s.len() >= 2,
    ensures
        spec_subdivide(s).len() == 2 * (s.len() - 1) + 2,
{
}

/// Endpoint law: a refinement step carries the first and the last input
/// point through unchanged.
pub proof fn lemma_subdivide_endpoints(s: Seq<Point>)
    requires
        s.len() >= 2,
    ensures
        spec_subdivide(s)[0] == s[0],
        spec_subdivide(s).last() == s.last(),
{
}

/// Identity on degenerate input: fewer than two points subdivide to
/// themselves.
pub proof fn lemma_subdivide_degenerate(s: Seq<Point>)
    requires
        s.len() < 2,
    ensures
        spec_subdivide(s) == s,
{
}

/// Corner cutting cannot leave the coordinate range: both cut points of a
/// segment lie between its endpoints, componentwise.
pub proof fn lemma_cut_points_in_range(a: Point, b: Point)
    requires
        point_in_range(a),
        point_in_range(b),
    ensures
        point_in_range(quarter_point(a, b)),
        point_in_range(three_quarter_point(a, b)),
{
    assert((3 * a.x + b.x) / 4 <= MAX_COORD && (a.x + 3 * b.x) / 4 <= MAX_COORD)
        by (nonlinear_arith)
        requires
            0 <= a.x <= MAX_COORD,
            0 <= b.x <= MAX_COORD,
    ;
    assert((3 * a.y + b.y) / 4 <= MAX_COORD && (a.y + 3 * b.y) / 4 <= MAX_COORD)
        by (nonlinear_arith)
        requires
            0 <= a.y <= MAX_COORD,
            0 <= b.y <= MAX_COORD,
    ;
}

/// A refinement step keeps every point within the coordinate range.
pub proof fn lemma_subdivide_preserves_range(s: Seq<Point>)
    requires
        points_in_range(s),
    ensures
        points_in_range(spec_subdivide(s)),
{
    if s.len() >= 2 {
        assert forall|k: int| 0 <= k < spec_subdivide(s).len() implies point_in_range(
            #[trigger] spec_subdivide(s)[k],
        ) by {
            if k == 0 {
            } else if k == 2 * s.len() - 1 {
            } else if k % 2 == 1 {
                lemma_cut_points_in_range(s[(k - 1) / 2], s[(k - 1) / 2 + 1]);
            } else {
                lemma_cut_points_in_range(s[k / 2 - 1], s[k / 2]);
            }
        }
    }
}

/// Applying the step to an already refined curve is one more iteration:
/// `iter_subdivide(k, spec_subdivide(s)) == iter_subdivide(k + 1, s)`.
pub proof fn lemma_iter_subdivide_shift(k: nat, s: Seq<Point>)
    ensures
        iter_subdivide(k, spec_subdivide(s)) == iter_subdivide(k + 1, s),
    decreases k,
{
    if k == 0 {
        assert(iter_subdivide(1, s) == spec_subdivide(iter_subdivide(0, s)));
    } else {
        lemma_iter_subdivide_shift((k - 1) as nat, s);
        assert(iter_subdivide(k, spec_subdivide(s)) == spec_subdivide(
            iter_subdivide((k - 1) as nat, spec_subdivide(s)),
        ));
        assert(iter_subdivide(k + 1, s) == spec_subdivide(iter_subdivide(k, s)));
    }
}

/// One Chaikin refinement step over a polyline of control points.
pub fn subdivide(points: &Vec<Point>) -> (result: Vec<Point>)
    requires
        points_in_range(points@),
    ensures
        result@ == spec_subdivide(points@),
        points_in_range(result@),
{
    let n = points.len();
    if n < 2 {
        return clone_points(points);
    }
    let mut result: Vec<Point> = Vec::new();
    result.push(points[0]);
    let mut i: usize = 0;
    while i < n - 1
        invariant
            2 <= n == points@.len(),
            i <= n - 1,
            points_in_range(points@),
            result@.len() == 1 + 2 * i,
            forall|k: int| 0 <= k < result@.len() ==> result@[k] == spec_subdivide(points@)[k],
        decreases n - 1 - i,
    {
        let p1 = points[i];
        let p2 = points[i + 1];
        proof {
            assert(point_in_range(points@[i as int]));
            assert(point_in_range(points@[i + 1]));
        }
        let q = Point { x: (3 * p1.x + p2.x) / 4, y: (3 * p1.y + p2.y) / 4 };
        let r = Point { x: (p1.x + 3 * p2.x) / 4, y: (p1.y + 3 * p2.y) / 4 };
        result.push(q);
        result.push(r);
        proof {
            let gi = i as int;
            assert((2 * gi + 1 - 1) / 2 == gi && (2 * gi + 2) / 2 == gi + 1) by (nonlinear_arith);
            assert((2 * gi + 1) % 2 == 1 && (2 * gi + 2) % 2 == 0) by (nonlinear_arith);
            assert(spec_subdivide(points@)[2 * gi + 1] == quarter_point(points@[gi], points@[gi + 1]));
            assert(spec_subdivide(points@)[2 * gi + 2] == three_quarter_point(points@[gi], points@[gi + 1]));
            assert(q == quarter_point(points@[gi], points@[gi + 1]));
            assert(r == three_quarter_point(points@[gi], points@[gi + 1]));
        }
        i = i + 1;
    }
    result.push(points[n - 1]);
    proof {
        assert(result@ =~= spec_subdivide(points@));
        lemma_subdivide_preserves_range(points@);
    }
    result
}

} // verus!
