use chaikin::point::Point;
use chaikin::session::{Session, MAX_STEPS, MESSAGE_DURATION_MS, STEP_DELAY_MS};
use chaikin::subdivide::subdivide;

fn pt(x: u64, y: u64) -> Point {
    Point { x, y }
}

fn session_with(points: &[Point]) -> Session {
    let mut s = Session::new();
    for p in points {
        s.add_point(*p);
    }
    s
}

#[test]
fn new_session_is_empty_and_idle() {
    let s = Session::new();
    assert!(s.points().is_empty());
    assert!(s.curve().is_empty());
    assert!(!s.is_animating());
    assert_eq!(s.step(), 1);
    assert!(!s.message_visible());
    assert_eq!(s.dragging(), None);
}

#[test]
fn two_point_start_stays_idle() {
    let mut s = session_with(&[pt(10, 10), pt(50, 10)]);
    s.start_animate();
    assert!(!s.is_animating());
    assert_eq!(s.step(), 1);
    assert_eq!(*s.curve(), vec![pt(10, 10), pt(50, 10)]);
}

#[test]
fn three_point_start_animates_then_wraps() {
    let raw = vec![pt(0, 0), pt(50, 0), pt(100, 50)];
    let mut s = session_with(&raw);
    s.start_animate();
    assert!(s.is_animating());
    assert_eq!(s.step(), 1);
    assert_eq!(*s.curve(), raw);

    s.tick(STEP_DELAY_MS);
    assert_eq!(s.step(), 2);
    assert_eq!(*s.curve(), subdivide(&raw));
    assert_eq!(s.curve().len(), 6);

    for _ in 1..MAX_STEPS {
        s.tick(STEP_DELAY_MS);
    }
    assert_eq!(s.step(), 1);
    assert_eq!(*s.curve(), raw);
    assert!(s.is_animating());
}

#[test]
fn animation_cycle_is_periodic() {
    let raw = vec![pt(0, 0), pt(30, 60), pt(90, 60), pt(120, 0)];
    let mut s = session_with(&raw);
    s.start_animate();
    for _ in 0..MAX_STEPS {
        s.tick(STEP_DELAY_MS);
    }
    assert_eq!(s.step(), 1);
    assert_eq!(*s.curve(), raw);
    assert!(s.is_animating());
}

#[test]
fn tick_accumulates_below_step_delay() {
    let mut s = session_with(&[pt(0, 0), pt(50, 0), pt(100, 50)]);
    s.start_animate();
    s.tick(200);
    assert_eq!(s.step(), 1);
    s.tick(299);
    assert_eq!(s.step(), 1);
    s.tick(1);
    assert_eq!(s.step(), 2);
}

#[test]
fn clear_resets_everything() {
    let mut s = session_with(&[pt(0, 0), pt(50, 0), pt(100, 50)]);
    s.start_animate();
    s.tick(STEP_DELAY_MS);
    s.clear();
    assert!(s.points().is_empty());
    assert!(s.curve().is_empty());
    assert!(!s.is_animating());
    assert_eq!(s.step(), 1);
    assert_eq!(s.dragging(), None);
}

#[test]
fn start_with_zero_points_raises_notice() {
    let mut s = Session::new();
    s.start_animate();
    assert!(!s.is_animating());
    assert_eq!(s.step(), 1);
    assert!(s.message_visible());

    s.tick(MESSAGE_DURATION_MS / 2);
    assert!(s.message_visible());
    s.tick(MESSAGE_DURATION_MS / 2);
    assert!(!s.message_visible());
}

#[test]
fn start_with_one_point_is_a_no_op() {
    let mut s = session_with(&[pt(10, 10)]);
    s.start_animate();
    assert!(!s.is_animating());
    assert!(!s.message_visible());
    assert_eq!(s.step(), 1);
    assert!(s.curve().is_empty());
}

#[test]
fn notice_runs_on_while_animating() {
    let mut s = Session::new();
    s.start_animate();
    assert!(s.message_visible());
    for p in [pt(0, 0), pt(50, 0), pt(100, 50)] {
        s.add_point(p);
    }
    s.start_animate();
    assert!(s.is_animating());
    s.tick(STEP_DELAY_MS);
    assert_eq!(s.step(), 2);
    assert!(s.message_visible());
    s.tick(STEP_DELAY_MS);
    s.tick(STEP_DELAY_MS);
    s.tick(STEP_DELAY_MS);
    // 4 * 500 ms have passed: the 2000 ms notice has just expired.
    assert!(!s.message_visible());
    assert_eq!(s.step(), 5);
}

#[test]
fn drag_rederives_curve_from_scratch() {
    let mut s = session_with(&[pt(0, 0), pt(40, 0), pt(80, 40)]);
    s.start_animate();
    s.tick(STEP_DELAY_MS);
    s.tick(STEP_DELAY_MS);
    assert_eq!(s.step(), 3);

    s.move_point(0, pt(4, 4));
    let moved = vec![pt(4, 4), pt(40, 0), pt(80, 40)];
    assert_eq!(*s.points(), moved);
    // step = 3: exactly two refinements of the freshly mutated points, not
    // an incremental update of the stale curve.
    assert_eq!(*s.curve(), subdivide(&subdivide(&moved)));
}

#[test]
fn move_point_while_idle_mirrors_points() {
    let mut s = session_with(&[pt(10, 10), pt(50, 10)]);
    s.move_point(1, pt(60, 20));
    assert_eq!(*s.points(), vec![pt(10, 10), pt(60, 20)]);
    assert_eq!(*s.curve(), vec![pt(10, 10), pt(60, 20)]);
    assert!(!s.is_animating());
}

#[test]
fn move_single_point_leaves_curve_alone() {
    let mut s = session_with(&[pt(10, 10)]);
    s.move_point(0, pt(20, 20));
    assert_eq!(*s.points(), vec![pt(20, 20)]);
    assert!(s.curve().is_empty());
}

#[test]
fn add_point_while_animating_extends_curve() {
    let mut s = session_with(&[pt(0, 0), pt(50, 0), pt(100, 50)]);
    s.start_animate();
    s.tick(STEP_DELAY_MS);
    assert_eq!(s.curve().len(), 6);

    s.add_point(pt(200, 200));
    assert_eq!(s.points().len(), 4);
    assert_eq!(s.curve().len(), 7);
    assert_eq!(s.curve()[6], pt(200, 200));
    assert_eq!(s.step(), 2);
    assert!(s.is_animating());
}

#[test]
fn add_point_while_idle_leaves_curve_alone() {
    let mut s = Session::new();
    s.add_point(pt(10, 10));
    s.add_point(pt(50, 10));
    assert_eq!(s.points().len(), 2);
    assert!(s.curve().is_empty());
}

#[test]
fn find_point_near_picks_first_in_insertion_order() {
    let s = session_with(&[pt(10, 10), pt(14, 10), pt(100, 100)]);
    // Both of the first two points are within radius 5 of (12, 10); the
    // tie breaks towards the earlier insertion.
    assert_eq!(s.find_point_near(pt(12, 10), 5), Some(0));
    assert_eq!(s.find_point_near(pt(14, 11), 2), Some(1));
    assert_eq!(s.find_point_near(pt(200, 200), 5), None);
    // Distance exactly equal to the radius still hits.
    assert_eq!(s.find_point_near(pt(105, 100), 5), Some(2));
    assert_eq!(s.find_point_near(pt(106, 100), 5), None);
}

#[test]
fn press_on_point_starts_drag_press_elsewhere_adds() {
    let mut s = session_with(&[pt(10, 10), pt(50, 10)]);
    s.handle_press(pt(12, 11), 5);
    assert_eq!(s.dragging(), Some(0));
    assert_eq!(s.points().len(), 2);

    s.handle_release();
    assert_eq!(s.dragging(), None);

    s.handle_press(pt(300, 300), 5);
    assert_eq!(s.dragging(), None);
    assert_eq!(s.points().len(), 3);
    assert_eq!(s.points()[2], pt(300, 300));
}
