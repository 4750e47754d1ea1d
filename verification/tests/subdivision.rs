use chaikin::point::Point;
use chaikin::subdivide::subdivide;

fn pt(x: u64, y: u64) -> Point {
    Point { x, y }
}

fn max_consecutive_dist_sq(points: &Vec<Point>) -> u64 {
    let mut max: u64 = 0;
    for i in 0..points.len() - 1 {
        let a = points[i];
        let b = points[i + 1];
        let dx = if a.x >= b.x { a.x - b.x } else { b.x - a.x };
        let dy = if a.y >= b.y { a.y - b.y } else { b.y - a.y };
        let d = dx * dx + dy * dy;
        if d > max {
            max = d;
        }
    }
    max
}

#[test]
fn subdivide_length_law() {
    let points = vec![pt(0, 0), pt(100, 0), pt(100, 100), pt(200, 100)];
    let out = subdivide(&points);
    assert_eq!(out.len(), 2 * (points.len() - 1) + 2);

    let two = vec![pt(10, 10), pt(50, 10)];
    assert_eq!(subdivide(&two).len(), 2 * (two.len() - 1) + 2);
}

#[test]
fn subdivide_endpoint_law() {
    let points = vec![pt(3, 7), pt(100, 0), pt(100, 100), pt(200, 40), pt(8, 9)];
    let out = subdivide(&points);
    assert_eq!(out[0], pt(3, 7));
    assert_eq!(out[out.len() - 1], pt(8, 9));
}

#[test]
fn subdivide_identity_on_degenerate() {
    let empty: Vec<Point> = vec![];
    assert_eq!(subdivide(&empty), empty);

    let one = vec![pt(42, 17)];
    assert_eq!(subdivide(&one), one);
}

#[test]
fn subdivide_cuts_the_corner() {
    let points = vec![pt(0, 0), pt(100, 0), pt(100, 100)];
    let out = subdivide(&points);
    assert_eq!(
        out,
        vec![
            pt(0, 0),
            pt(25, 0),
            pt(75, 0),
            pt(100, 25),
            pt(100, 75),
            pt(100, 100),
        ]
    );
    // The corner (100, 0) is gone; its two replacements lie strictly closer
    // to the segment midline than the corner did.
    assert!(!out.contains(&pt(100, 0)));
}

#[test]
fn subdivide_smooths_progressively() {
    // Iterating the step keeps shrinking the longest gap between
    // consecutive points of this non-collinear polyline.
    let mut curve = vec![pt(0, 0), pt(100, 0), pt(100, 100)];
    let mut last = max_consecutive_dist_sq(&curve);
    for _ in 0..4 {
        curve = subdivide(&curve);
        let next = max_consecutive_dist_sq(&curve);
        assert!(next < last);
        last = next;
    }
}

#[test]
fn subdivide_truncates_quarters() {
    // 1/4 of the way from (0,0) to (10,10) is 2.5: fixed-point arithmetic
    // truncates to 2; 3/4 is 7.5, truncated to 7.
    let points = vec![pt(0, 0), pt(10, 10)];
    let out = subdivide(&points);
    assert_eq!(out, vec![pt(0, 0), pt(2, 2), pt(7, 7), pt(10, 10)]);
}

#[test]
fn subdivide_keeps_coincident_points() {
    let points = vec![pt(5, 5), pt(5, 5)];
    let out = subdivide(&points);
    assert_eq!(out, vec![pt(5, 5), pt(5, 5), pt(5, 5), pt(5, 5)]);
}
