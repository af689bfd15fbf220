//! A waypoint path: its segments, their thresholds, and the active segment.
//!
//! The path is generic in its line type `L`, its fillet type `C` and the
//! type `T` of its path parameter: the geometry that computes with them is
//! supplied by the user of the path.
use vstd::prelude::*;

use crate::tracker::{Crossing, PathSegment, SegmentTracker, TrackerState};

verus! {

/// The active segment of a waypoint path, with the thresholds of its path
/// parameter.
#[derive(Debug)]
pub enum ActiveSegment<'a, L, C, T> {
    Line { line: &'a L, min: &'a T, max: &'a T },
    Circle { circle: &'a C, min: &'a T, max: &'a T },
}

/// Lines between consecutive waypoints, joined by fillets, with the
/// thresholds that bound each segment's path parameter and the state of the
/// segment that is being tracked.
///
/// For `n` waypoints there are `n - 1` lines and `n - 2` fillets. Line `i`
/// is tracked while its parameter lies within `theta_line_min[i]` and
/// `theta_line_max[i]`, fillet `i` while its parameter lies within
/// `theta_circ_min[i]` and `theta_circ_max[i]`.
pub struct WaypointPath<L, C, T> {
    tracker: SegmentTracker,
    lines: Vec<L>,
    circles: Vec<C>,
    theta_circ_min: Vec<T>,
    theta_circ_max: Vec<T>,
    theta_line_min: Vec<T>,
    theta_line_max: Vec<T>,
}

impl<L, C, T> WaypointPath<L, C, T> {
    #[verifier::type_invariant]
    closed spec fn inv(self) -> bool {
        let n = self.tracker@.n_waypoints;
        &&& self.lines@.len() == n - 1
        &&& self.circles@.len() == n - 2
        &&& self.theta_line_min@.len() == n - 1
        &&& self.theta_line_max@.len() == n - 1
        &&& self.theta_circ_min@.len() == n - 2
        &&& self.theta_circ_max@.len() == n - 2
    }

    /// The tracking state.
    pub closed spec fn state(&self) -> TrackerState {
        self.tracker@
    }

    pub closed spec fn lines(&self) -> Seq<L> {
        self.lines@
    }

    pub closed spec fn circles(&self) -> Seq<C> {
        self.circles@
    }

    pub closed spec fn line_min(&self) -> Seq<T> {
        self.theta_line_min@
    }

    pub closed spec fn line_max(&self) -> Seq<T> {
        self.theta_line_max@
    }

    pub closed spec fn circ_min(&self) -> Seq<T> {
        self.theta_circ_min@
    }

    pub closed spec fn circ_max(&self) -> Seq<T> {
        self.theta_circ_max@
    }

    /// A path of `lines.len()` lines joined by `circles.len()` fillets,
    /// tracked from its first line. Each vector of line thresholds has one
    /// entry per line, each vector of fillet thresholds one per fillet.
    pub fn new(
        lines: Vec<L>,
        circles: Vec<C>,
        theta_circ_min: Vec<T>,
        theta_circ_max: Vec<T>,
        theta_line_min: Vec<T>,
        theta_line_max: Vec<T>,
    ) -> (r: WaypointPath<L, C, T>)
        requires
            1 <= lines.len() < usize::MAX,
            circles.len() + 1 == lines.len(),
            theta_line_min.len() == lines.len(),
            theta_line_max.len() == lines.len(),
            theta_circ_min.len() == circles.len(),
            theta_circ_max.len() == circles.len(),
        ensures
            r.state() == TrackerState::initial(lines.len() + 1),
            r.state().wf(),
            r.lines() == lines@,
            r.circles() == circles@,
            r.line_min() == theta_line_min@,
            r.line_max() == theta_line_max@,
            r.circ_min() == theta_circ_min@,
            r.circ_max() == theta_circ_max@,
    {
        let tracker = SegmentTracker::new(lines.len() + 1);
        WaypointPath {
            tracker,
            lines,
            circles,
            theta_circ_min,
            theta_circ_max,
            theta_line_min,
            theta_line_max,
        }
    }

    /// The kind of the active segment.
    pub fn current_path_segment(&self) -> (r: PathSegment)
        ensures
            r == self.state().segment,
    {
        self.tracker.current_path_segment()
    }

    /// The waypoint number of the active segment, in `1..=n - 1` for a
    /// path of `n` waypoints.
    pub fn current_waypoint(&self) -> (r: usize)
        ensures
            r == self.state().waypoint,
            self.state().wf(),
    {
        self.tracker.current_waypoint()
    }

    /// The active segment and its thresholds: line or fillet number
    /// `current_waypoint - 1`.
    pub fn active(&self) -> (r: ActiveSegment<'_, L, C, T>)
        ensures
            ({
                let i = self.state().waypoint - 1;
                match r {
                    ActiveSegment::Line { line, min, max } => {
                        &&& self.state().segment == PathSegment::Line
                        &&& *line == self.lines()[i]
                        &&& *min == self.line_min()[i]
                        &&& *max == self.line_max()[i]
                    },
                    ActiveSegment::Circle { circle, min, max } => {
                        &&& self.state().segment == PathSegment::Circle
                        &&& *circle == self.circles()[i]
                        &&& *min == self.circ_min()[i]
                        &&& *max == self.circ_max()[i]
                    },
                }
            }),
    {
        proof {
            use_type_invariant(self);
        }
        let i = self.tracker.segment_index();
        match self.tracker.current_path_segment() {
            PathSegment::Line => ActiveSegment::Line {
                line: &self.lines[i],
                min: &self.theta_line_min[i],
                max: &self.theta_line_max[i],
            },
            PathSegment::Circle => ActiveSegment::Circle {
                circle: &self.circles[i],
                min: &self.theta_circ_min[i],
                max: &self.theta_circ_max[i],
            },
        }
    }

    /// Moves to the segment that `crossing` leads to; the segments and
    /// thresholds stay as they are.
    pub fn step(&mut self, crossing: Crossing)
        ensures
            final(self).state() == old(self).state().next(crossing),
            final(self).state().wf(),
            final(self).lines() == old(self).lines(),
            final(self).circles() == old(self).circles(),
            final(self).line_min() == old(self).line_min(),
            final(self).line_max() == old(self).line_max(),
            final(self).circ_min() == old(self).circ_min(),
            final(self).circ_max() == old(self).circ_max(),
    {
        proof {
            use_type_invariant(&*self);
        }
        self.tracker.step(crossing);
    }
}

} // verus!
