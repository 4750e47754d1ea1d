//! The editing session: the point store, the derived curve, and the
//! animation state machine that decides, frame by frame, which refinement
//! of the control polyline is on display.
//!
//! Every transition is specified against a mathematical model of the
//! session ([`SessionModel`]), and the executable methods are proved to
//! follow that model exactly.

use vstd::prelude::*;

use crate::point::{
    Point, MAX_COORD, clone_points, is_within_radius, point_in_range, points_in_range,
    within_radius,
};
use crate::subdivide::{
    iter_subdivide, lemma_iter_subdivide_shift, lemma_subdivide_preserves_range, spec_subdivide,
    subdivide,
};

verus! {

/// Number of refinement steps in one animation cycle; after this many the
/// display wraps back to the raw polyline.
pub const MAX_STEPS: u64 = 7;

/// Time one animation step stays on display, in milliseconds.
pub const STEP_DELAY_MS: u64 = 500;

/// Time the "no points" notice stays on display, in milliseconds.
pub const MESSAGE_DURATION_MS: u64 = 2000;

/// The mathematical model of a session: what the contracts of [`Session`]
/// speak about.
#[verifier::ext_equal]
pub ghost struct SessionModel {
    /// The control points, in insertion order.
    pub points: Seq<Point>,
    /// The polyline currently on display.
    pub curve: Seq<Point>,
    /// Whether the animation cycle is running.
    pub animating: bool,
    /// Current animation step, between 1 and `MAX_STEPS`.
    pub step: int,
    /// Time accumulated towards the next step, below `STEP_DELAY_MS`.
    pub elapsed_ms: int,
    /// Whether the "no points" notice is on display.
    pub message_visible: bool,
    /// Time the notice has left, zero when it is hidden.
    pub message_remaining_ms: int,
    /// Index of the control point being dragged, if any.
    pub dragging: Option<int>,
}

impl SessionModel {
    /// Well-formedness: every session the library hands out satisfies this.
    pub open spec fn wf(self) -> bool {
        &&& 1 <= self.step <= MAX_STEPS
        &&& 0 <= self.elapsed_ms < STEP_DELAY_MS
        &&& 0 <= self.message_remaining_ms <= MESSAGE_DURATION_MS
        &&& (self.message_visible <==> self.message_remaining_ms > 0)
        &&& points_in_range(self.points)
        &&& points_in_range(self.curve)
        &&& (self.animating ==> self.points.len() > 2)
        &&& (!self.animating ==> self.step == 1 && self.elapsed_ms == 0)
        &&& (match self.dragging {
            Some(i) => 0 <= i < self.points.len(),
            None => true,
        })
    }
}

/// The freshly created session: no points, no curve, idle at step 1, no
/// notice, nothing dragged.
pub open spec fn init_model() -> SessionModel {
    SessionModel {
        points: Seq::empty(),
        curve: Seq::empty(),
        animating: false,
        step: 1,
        elapsed_ms: 0,
        message_visible: false,
        message_remaining_ms: 0,
        dragging: None,
    }
}

/// Appending a control point: it joins the point store, and, while the
/// animation is running, the live curve as well.
pub open spec fn add_point_model(m: SessionModel, p: Point) -> SessionModel {
    SessionModel {
        points: m.points.push(p),
        curve: if m.animating {
            m.curve.push(p)
        } else {
            m.curve
        },
        ..m
    }
}

/// Moving a control point in place. With at least two points the curve is
/// re-derived from scratch: `step - 1` refinements of the mutated points
/// while animating, the raw points themselves while idle.
pub open spec fn move_point_model(m: SessionModel, index: int, p: Point) -> SessionModel {
    let moved = m.points.update(index, p);
    SessionModel {
        points: moved,
        curve: if moved.len() >= 2 {
            if m.animating {
                iter_subdivide((m.step - 1) as nat, moved)
            } else {
                moved
            }
        } else {
            m.curve
        },
        ..m
    }
}

/// Clearing the session: points and curve emptied, animation cancelled and
/// reset to step 1, drag cancelled. The notice, an independent timer, runs
/// on.
pub open spec fn clear_model(m: SessionModel) -> SessionModel {
    SessionModel {
        points: Seq::empty(),
        curve: Seq::empty(),
        animating: false,
        step: 1,
        elapsed_ms: 0,
        dragging: None,
        ..m
    }
}

/// The start-animate request. With more than two points the cycle starts;
/// with exactly two the display is reset to the raw segment but no cycle
/// runs; with one point nothing happens; with none the self-expiring
/// notice is raised instead.
pub open spec fn start_animate_model(m: SessionModel) -> SessionModel {
    if m.points.len() >= 2 {
        SessionModel {
            animating: m.points.len() > 2 || m.animating,
            step: 1,
            elapsed_ms: 0,
            curve: m.points,
            ..m
        }
    } else if m.points.len() == 0 {
        SessionModel {
            message_visible: true,
            message_remaining_ms: MESSAGE_DURATION_MS as int,
            ..m
        }
    } else {
        m
    }
}

/// The notice timer's share of a frame tick: it counts down and hides the
/// notice when it runs out.
pub open spec fn tick_message_model(m: SessionModel, delta_ms: int) -> SessionModel {
    if m.message_visible {
        if delta_ms >= m.message_remaining_ms {
            SessionModel { message_visible: false, message_remaining_ms: 0, ..m }
        } else {
            SessionModel { message_remaining_ms: m.message_remaining_ms - delta_ms, ..m }
        }
    } else {
        m
    }
}

/// The animation's share of a frame tick. While animating, time
/// accumulates; each time the step delay is reached the step advances and
/// the curve is refined once more, and past `MAX_STEPS` the cycle wraps
/// back to step 1 with the raw points on display.
pub open spec fn tick_animation_model(m: SessionModel, delta_ms: int) -> SessionModel {
    if m.animating {
        if m.elapsed_ms + delta_ms >= STEP_DELAY_MS {
            if m.step == MAX_STEPS {
                SessionModel { elapsed_ms: 0, step: 1, curve: m.points, ..m }
            } else {
                SessionModel {
                    elapsed_ms: 0,
                    step: m.step + 1,
                    curve: spec_subdivide(m.curve),
                    ..m
                }
            }
        } else {
            SessionModel { elapsed_ms: m.elapsed_ms + delta_ms, ..m }
        }
    } else {
        m
    }
}

/// One frame tick: both independent timers consume the frame's delta.
pub open spec fn tick_model(m: SessionModel, delta_ms: int) -> SessionModel {
    tick_animation_model(tick_message_model(m, delta_ms), delta_ms)
}

/// A run of frame ticks, first delta first.
pub open spec fn tick_model_seq(m: SessionModel, deltas: Seq<int>) -> SessionModel
    decreases deltas.len(),
{
    if deltas.len() == 0 {
        m
    } else {
        tick_model_seq(tick_model(m, deltas[0]), deltas.drop_first())
    }
}

/// Sum of a sequence of frame deltas.
pub open spec fn sum_of(deltas: Seq<int>) -> int
    decreases deltas.len(),
{
    if deltas.len() == 0 {
        0
    } else {
        deltas[0] + sum_of(deltas.drop_first())
    }
}

/// A sum of non-negative deltas is non-negative.
proof fn lemma_sum_of_nonneg(deltas: Seq<int>)
    requires
        forall|i: int| 0 <= i < deltas.len() ==> deltas[i] >= 0,
    ensures
        sum_of(deltas) >= 0,
    decreases deltas.len(),
{
    if deltas.len() > 0 {
        assert forall|i: int| 0 <= i < deltas.drop_first().len() implies deltas.drop_first()[i]
            >= 0 by {
            assert(deltas.drop_first()[i] == deltas[i + 1]);
        }
        lemma_sum_of_nonneg(deltas.drop_first());
    }
}

/// A frame tick keeps the session well-formed.
pub proof fn lemma_tick_model_wf(m: SessionModel, delta_ms: int)
    requires
        m.wf(),
        delta_ms >= 0,
    ensures
        tick_model(m, delta_ms).wf(),
{
    if m.animating && m.elapsed_ms + delta_ms >= STEP_DELAY_MS && m.step != MAX_STEPS {
        lemma_subdivide_preserves_range(m.curve);
    }
}

/// Start-with-zero-points law: requesting animation of an empty point
/// store leaves the session idle at step 1 and raises the notice with its
/// full duration.
pub proof fn lemma_start_animate_empty(m: SessionModel)
    requires
        m.wf(),
        m.points.len() == 0,
    ensures
        !start_animate_model(m).animating,
        start_animate_model(m).step == 1,
        start_animate_model(m).message_visible,
        start_animate_model(m).message_remaining_ms == MESSAGE_DURATION_MS,
{
}

/// Ticking away at least the notice's remaining time hides the notice.
proof fn lemma_message_ticks_expire(m: SessionModel, deltas: Seq<int>)
    requires
        m.wf(),
        forall|i: int| 0 <= i < deltas.len() ==> deltas[i] >= 0,
        sum_of(deltas) >= m.message_remaining_ms,
    ensures
        !tick_model_seq(m, deltas).message_visible,
        tick_model_seq(m, deltas).wf(),
    decreases deltas.len(),
{
    if deltas.len() == 0 {
    } else {
        let m1 = tick_model(m, deltas[0]);
        lemma_tick_model_wf(m, deltas[0]);
        assert(sum_of(deltas) == deltas[0] + sum_of(deltas.drop_first()));
        assert forall|i: int| 0 <= i < deltas.drop_first().len() implies deltas.drop_first()[i]
            >= 0 by {
            assert(deltas.drop_first()[i] == deltas[i + 1]);
        }
        assert(m1.message_remaining_ms <= m.message_remaining_ms - deltas[0] || (
        m1.message_remaining_ms == 0 && deltas[0] >= m.message_remaining_ms));
        lemma_sum_of_nonneg(deltas.drop_first());
        lemma_message_ticks_expire(m1, deltas.drop_first());
        assert(tick_model_seq(m, deltas) == tick_model_seq(m1, deltas.drop_first()));
    }
}

/// Message expiry law: once ticks totalling the notice's full duration
/// have passed, the notice is hidden, whatever else the session did.
pub proof fn lemma_message_expires(m: SessionModel, deltas: Seq<int>)
    requires
        m.wf(),
        forall|i: int| 0 <= i < deltas.len() ==> deltas[i] >= 0,
        sum_of(deltas) >= MESSAGE_DURATION_MS,
    ensures
        !tick_model_seq(m, deltas).message_visible,
{
    lemma_message_ticks_expire(m, deltas);
}

/// A run of unhurried ticks (each at least the step delay) advances the
/// animation one step per tick, refining the curve once per step, and
/// wraps to step 1 with the raw points on display when the run carries the
/// step past `MAX_STEPS`.
proof fn lemma_cycle_segment(m: SessionModel, deltas: Seq<int>)
    requires
        m.animating,
        m.elapsed_ms >= 0,
        1 <= m.step <= MAX_STEPS,
        m.step + deltas.len() <= MAX_STEPS + 1,
        forall|i: int| 0 <= i < deltas.len() ==> deltas[i] >= STEP_DELAY_MS,
    ensures
        ({
            let r = tick_model_seq(m, deltas);
            &&& r.animating
            &&& r.points == m.points
            &&& (deltas.len() > 0 ==> r.elapsed_ms == 0)
            &&& (m.step + deltas.len() <= MAX_STEPS ==> r.step == m.step + deltas.len()
                && r.curve == iter_subdivide(deltas.len() as nat, m.curve))
            &&& (m.step + deltas.len() == MAX_STEPS + 1 ==> r.step == 1 && r.curve == m.points)
        }),
    decreases deltas.len(),
{
    if deltas.len() == 0 {
        assert(iter_subdivide(0, m.curve) == m.curve);
    } else {
        let m1 = tick_model(m, deltas[0]);
        assert(m.elapsed_ms + deltas[0] >= STEP_DELAY_MS);
        assert forall|i: int| 0 <= i < deltas.drop_first().len() implies deltas.drop_first()[i]
            >= STEP_DELAY_MS by {
            assert(deltas.drop_first()[i] == deltas[i + 1]);
        }
        assert(tick_model_seq(m, deltas) == tick_model_seq(m1, deltas.drop_first()));
        if m.step == MAX_STEPS {
            assert(m1.step == 1 && m1.curve == m.points && m1.elapsed_ms == 0);
            lemma_cycle_segment(m1, deltas.drop_first());
        } else {
            assert(m1.step == m.step + 1 && m1.curve == spec_subdivide(m.curve) && m1.elapsed_ms
                == 0);
            lemma_cycle_segment(m1, deltas.drop_first());
            lemma_iter_subdivide_shift((deltas.len() - 1) as nat, m.curve);
        }
    }
}

/// Animation cycle law: from step 1, a run of `MAX_STEPS` ticks, each
/// carrying at least the step delay, returns the step to 1 and the curve
/// to the raw control points, with the points untouched and the animation
/// still running — the cycle is periodic with period `MAX_STEPS` ticks.
pub proof fn lemma_animation_cycle(m: SessionModel, deltas: Seq<int>)
    requires
        m.wf(),
        m.animating,
        m.step == 1,
        deltas.len() == MAX_STEPS,
        forall|i: int| 0 <= i < deltas.len() ==> deltas[i] >= STEP_DELAY_MS,
    ensures
        tick_model_seq(m, deltas).step == 1,
        tick_model_seq(m, deltas).curve == m.points,
        tick_model_seq(m, deltas).animating,
        tick_model_seq(m, deltas).points == m.points,
        tick_model_seq(m, deltas).elapsed_ms == 0,
{
    lemma_cycle_segment(m, deltas);
}

/// The editing session: control points, derived curve, animation and
/// notice timers, and the drag selection.
pub struct Session {
    points: Vec<Point>,
    curve: Vec<Point>,
    animating: bool,
    step: u64,
    elapsed_ms: u64,
    message_visible: bool,
    message_remaining_ms: u64,
    dragging: Option<usize>,
}

impl View for Session {
    type V = SessionModel;

    closed spec fn view(&self) -> SessionModel {
        SessionModel {
            points: self.points@,
            curve: self.curve@,
            animating: self.animating,
            step: self.step as int,
            elapsed_ms: self.elapsed_ms as int,
            message_visible: self.message_visible,
            message_remaining_ms: self.message_remaining_ms as int,
            dragging: match self.dragging {
                Some(i) => Some(i as int),
                None => None,
            },
        }
    }
}

impl Session {
    /// A fresh, empty, idle session.
    pub fn new() -> (s: Session)
        ensures
            s@ == init_model(),
            s@.wf(),
    {
        let s = Session {
            points: Vec::new(),
            curve: Vec::new(),
            animating: false,
            step: 1,
            elapsed_ms: 0,
            message_visible: false,
            message_remaining_ms: 0,
            dragging: None,
        };
        proof {
            assert(s@ =~= init_model());
        }
        s
    }

    /// Appends a control point; while animating it also joins the live
    /// curve, extending the animated polyline at its tail.
    pub fn add_point(&mut self, p: Point)
        requires
            old(self)@.wf(),
            point_in_range(p),
        ensures
            final(self)@.wf(),
            final(self)@ == add_point_model(old(self)@, p),
    {
        self.points.push(p);
        if self.animating {
            self.curve.push(p);
        }
        proof {
            assert(self@ =~= add_point_model(old(self)@, p));
        }
    }

    /// Replaces the control point at `index` and re-derives the curve:
    /// `step - 1` refinements of the mutated points while animating, the
    /// raw points while idle, untouched while fewer than two points exist.
    pub fn move_point(&mut self, index: usize, p: Point)
        requires
            old(self)@.wf(),
            index < old(self)@.points.len(),
            point_in_range(p),
        ensures
            final(self)@.wf(),
            final(self)@ == move_point_model(old(self)@, index as int, p),
    {
        self.points[index] = p;
        if self.points.len() >= 2 {
            if self.animating {
                let mut c = clone_points(&self.points);
                let mut k: u64 = 1;
                while k < self.step
                    invariant
                        1 <= k <= self.step,
                        points_in_range(self.points@),
                        points_in_range(c@),
                        c@ == iter_subdivide((k - 1) as nat, self.points@),
                    decreases self.step - k,
                {
                    c = subdivide(&c);
                    k = k + 1;
                }
                self.curve = c;
            } else {
                self.curve = clone_points(&self.points);
            }
        }
        proof {
            assert(self@ =~= move_point_model(old(self)@, index as int, p));
        }
    }

    /// Empties the point store and the curve, cancels the animation and
    /// any drag, and resets the step to 1.
    pub fn clear(&mut self)
        requires
            old(self)@.wf(),
        ensures
            final(self)@.wf(),
            final(self)@ == clear_model(old(self)@),
            final(self)@.points.len() == 0,
            final(self)@.curve.len() == 0,
            !final(self)@.animating,
            final(self)@.step == 1,
    {
        self.points = Vec::new();
        self.curve = Vec::new();
        self.animating = false;
        self.step = 1;
        self.elapsed_ms = 0;
        self.dragging = None;
        proof {
            assert(self@ =~= clear_model(old(self)@));
        }
    }

    /// The start-animate request: starts the cycle when more than two
    /// points exist, resets the display to the raw points when at least
    /// two do, does nothing for a single point, and raises the
    /// self-expiring notice for none.
    pub fn start_animate(&mut self)
        requires
            old(self)@.wf(),
        ensures
            final(self)@.wf(),
            final(self)@ == start_animate_model(old(self)@),
    {
        let n = self.points.len();
        if n >= 2 {
            if n > 2 {
                self.animating = true;
            }
            self.step = 1;
            self.elapsed_ms = 0;
            self.curve = clone_points(&self.points);
        } else if n == 0 {
            self.message_visible = true;
            self.message_remaining_ms = MESSAGE_DURATION_MS;
        }
        proof {
            assert(self@ =~= start_animate_model(old(self)@));
        }
    }

    /// One frame tick of `delta_ms` milliseconds: counts the notice down,
    /// and, while animating, advances the step and refines or resets the
    /// curve each time the step delay is reached.
    pub fn tick(&mut self, delta_ms: u64)
        requires
            old(self)@.wf(),
        ensures
            final(self)@.wf(),
            final(self)@ == tick_model(old(self)@, delta_ms as int),
    {
        if self.message_visible {
            if delta_ms >= self.message_remaining_ms {
                self.message_visible = false;
                self.message_remaining_ms = 0;
            } else {
                self.message_remaining_ms = self.message_remaining_ms - delta_ms;
            }
        }
        if self.animating {
            if delta_ms >= STEP_DELAY_MS - self.elapsed_ms {
                self.elapsed_ms = 0;
                if self.step == MAX_STEPS {
                    self.step = 1;
                    self.curve = clone_points(&self.points);
                } else {
                    self.step = self.step + 1;
                    self.curve = subdivide(&self.curve);
                }
            } else {
                self.elapsed_ms = self.elapsed_ms + delta_ms;
            }
        }
        proof {
            assert(self@ =~= tick_model(old(self)@, delta_ms as int));
        }
    }

    /// The first control point within `radius` of `pos`, in insertion
    /// order, if any — the drag hit-test.
    pub fn find_point_near(&self, pos: Point, radius: u64) -> (r: Option<usize>)
        requires
            self@.wf(),
            point_in_range(pos),
            radius <= MAX_COORD,
        ensures
            match r {
                Some(i) => {
                    &&& (i as int) < self@.points.len()
                    &&& within_radius(self@.points[i as int], pos, radius)
                    &&& forall|j: int|
                        0 <= j < i as int ==> !within_radius(self@.points[j], pos, radius)
                },
                None => forall|j: int|
                    0 <= j < self@.points.len() ==> !within_radius(self@.points[j], pos, radius),
            },
    {
        let mut i: usize = 0;
        while i < self.points.len()
            invariant
                self@.wf(),
                point_in_range(pos),
                radius <= MAX_COORD,
                i <= self@.points.len(),
                forall|j: int| 0 <= j < i ==> !within_radius(self@.points[j], pos, radius),
            decreases self@.points.len() - i,
        {
            if is_within_radius(self.points[i], pos, radius) {
                return Some(i);
            }
            i = i + 1;
        }
        None
    }

    /// The press handler: a press on an existing point (first hit in
    /// insertion order) starts dragging it; a press on empty canvas
    /// appends a new control point there.
    pub fn handle_press(&mut self, pos: Point, radius: u64)
        requires
            old(self)@.wf(),
            point_in_range(pos),
            radius <= MAX_COORD,
        ensures
            final(self)@.wf(),
            (exists|i: int|
                0 <= i < old(self)@.points.len() && within_radius(
                    #[trigger] old(self)@.points[i],
                    pos,
                    radius,
                )) ==> {
                &&& final(self)@ == (SessionModel { dragging: final(self)@.dragging, ..old(self)@ })
                &&& match final(self)@.dragging {
                    Some(i) => {
                        &&& 0 <= i < old(self)@.points.len()
                        &&& within_radius(old(self)@.points[i], pos, radius)
                        &&& forall|j: int|
                            0 <= j < i ==> !within_radius(old(self)@.points[j], pos, radius)
                    },
                    None => false,
                }
            },
            (forall|i: int|
                0 <= i < old(self)@.points.len() ==> !within_radius(
                    #[trigger] old(self)@.points[i],
                    pos,
                    radius,
                )) ==> final(self)@ == add_point_model(old(self)@, pos),
    {
        match self.find_point_near(pos, radius) {
            Some(i) => {
                self.dragging = Some(i);
                proof {
                    assert(self@ =~= (SessionModel { dragging: self@.dragging, ..old(self)@ }));
                }
            },
            None => {
                self.add_point(pos);
            },
        }
    }

    /// The release handler: whatever was being dragged no longer is.
    pub fn handle_release(&mut self)
        requires
            old(self)@.wf(),
        ensures
            final(self)@.wf(),
            final(self)@ == (SessionModel { dragging: None, ..old(self)@ }),
    {
        self.dragging = None;
        proof {
            assert(self@ =~= (SessionModel { dragging: None, ..old(self)@ }));
        }
    }

    /// The control points, in insertion order.
    pub fn points(&self) -> (r: &Vec<Point>)
        ensures
            r@ == self@.points,
    {
        &self.points
    }

    /// The polyline currently on display.
    pub fn curve(&self) -> (r: &Vec<Point>)
        ensures
            r@ == self@.curve,
    {
        &self.curve
    }

    /// Whether the animation cycle is running.
    pub fn is_animating(&self) -> (r: bool)
        ensures
            r == self@.animating,
    {
        self.animating
    }

    /// The current animation step.
    pub fn step(&self) -> (r: u64)
        ensures
            r as int == self@.step,
    {
        self.step
    }

    /// Whether the "no points" notice is on display.
    pub fn message_visible(&self) -> (r: bool)
        ensures
            r == self@.message_visible,
    {
        self.message_visible
    }

    /// The index of the control point being dragged, if any.
    pub fn dragging(&self) -> (r: Option<usize>)
        ensures
            match r {
                Some(i) => self@.dragging == Some(i as int),
                None => self@.dragging is None,
            },
    {
        self.dragging
    }
}

} // verus!
