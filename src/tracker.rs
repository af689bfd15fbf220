//! The runtime state of a waypoint path.
//!
//! A path through `n` waypoints is made of `n - 1` straight lines, line `w`
//! joining waypoint `w - 1` to waypoint `w` (for `w` in `1..=n-1`), and of
//! `n - 2` circular fillets, fillet `w` rounding the corner at waypoint `w`
//! (for `w` in `1..=n-2`). The active segment is named by a kind and a
//! waypoint number `w`; its geometry and its thresholds sit at index `w - 1`
//! of the path's line or fillet vectors.
use vstd::prelude::*;

verus! {

/// The kind of the active segment.
#[derive(Clone, Copy, Debug, PartialEq, Eq, Structural)]
pub enum PathSegment {
    Line,
    Circle,
}

/// Where the path parameter, computed on the active segment, lies with
/// respect to that segment's thresholds.
#[derive(Clone, Copy, Debug, PartialEq, Eq, Structural)]
pub enum Crossing {
    /// Between the lower and the upper threshold.
    Within,
    /// Above the upper threshold: the point has moved past the segment's end.
    AboveMax,
    /// Below the lower threshold: the point has fallen back before its start.
    BelowMin,
}

/// The crossing that two threshold comparisons describe. The upper
/// threshold is looked at first: a parameter that is both above the upper
/// and below the lower threshold counts as above.
pub open spec fn crossing_of(above_max: bool, below_min: bool) -> Crossing {
    if above_max {
        Crossing::AboveMax
    } else if below_min {
        Crossing::BelowMin
    } else {
        Crossing::Within
    }
}

impl Crossing {
    /// Classifies the path parameter from the results of `theta > max` and
    /// `theta < min` on the active segment's thresholds.
    pub fn from_comparisons(above_max: bool, below_min: bool) -> (r: Crossing)
        ensures
            r == crossing_of(above_max, below_min),
    {
        if above_max {
            Crossing::AboveMax
        } else if below_min {
            Crossing::BelowMin
        } else {
            Crossing::Within
        }
    }
}

/// Abstract state of a tracker: the active segment's kind and waypoint
/// number, and the number of waypoints of the path.
pub struct TrackerState {
    pub segment: PathSegment,
    pub waypoint: int,
    pub n_waypoints: int,
}

impl TrackerState {
    /// A path has at least two waypoints; the active waypoint number names
    /// an existing line, and an existing fillet when on a fillet.
    pub open spec fn wf(self) -> bool {
        &&& self.n_waypoints >= 2
        &&& 1 <= self.waypoint <= self.n_waypoints - 1
        &&& self.segment == PathSegment::Circle ==> self.waypoint <= self.n_waypoints - 2
    }

    /// The state in which tracking starts: on the first line.
    pub open spec fn initial(n_waypoints: int) -> TrackerState {
        TrackerState { segment: PathSegment::Line, waypoint: 1, n_waypoints }
    }

    /// The same path, with the active segment replaced.
    pub open spec fn at(self, segment: PathSegment, waypoint: int) -> TrackerState {
        TrackerState { segment, waypoint, n_waypoints: self.n_waypoints }
    }

    /// The state after one crossing.
    ///
    /// On a line: past its end, enter the fillet ahead (same waypoint);
    /// before its start, fall back into the previous fillet (one waypoint
    /// back). On a fillet: past its end, leave onto the next line (one
    /// waypoint on); before its start, return to the line that led into it.
    /// The first line has no lower threshold and the last line no upper one,
    /// so a crossing reported there leaves the state as it is.
    pub open spec fn next(self, crossing: Crossing) -> TrackerState {
        match self.segment {
            PathSegment::Line => match crossing {
                Crossing::AboveMax => if self.waypoint < self.n_waypoints - 1 {
                    self.at(PathSegment::Circle, self.waypoint)
                } else {
                    self
                },
                Crossing::BelowMin => if self.waypoint > 1 {
                    self.at(PathSegment::Circle, self.waypoint - 1)
                } else {
                    self
                },
                Crossing::Within => self,
            },
            PathSegment::Circle => match crossing {
                Crossing::AboveMax => self.at(PathSegment::Line, self.waypoint + 1),
                Crossing::BelowMin => self.at(PathSegment::Line, self.waypoint),
                Crossing::Within => self,
            },
        }
    }

    /// The state after a sequence of crossings, taken in order.
    pub open spec fn run(self, crossings: Seq<Crossing>) -> TrackerState
        decreases crossings.len(),
    {
        if crossings.len() == 0 {
            self
        } else {
            self.next(crossings[0]).run(crossings.drop_first())
        }
    }
}

/// Which segment of a waypoint path is active.
pub struct SegmentTracker {
    current_waypoint: usize,
    current_path_segment: PathSegment,
    n_waypoints: usize,
}

impl View for SegmentTracker {
    type V = TrackerState;

    closed spec fn view(&self) -> TrackerState {
        TrackerState {
            segment: self.current_path_segment,
            waypoint: self.current_waypoint as int,
            n_waypoints: self.n_waypoints as int,
        }
    }
}

impl SegmentTracker {
    #[verifier::type_invariant]
    closed spec fn inv(self) -> bool {
        self@.wf()
    }

    /// A tracker for a path through `n_waypoints` waypoints, on its first
    /// line.
    pub fn new(n_waypoints: usize) -> (r: SegmentTracker)
        requires
            n_waypoints >= 2,
        ensures
            r@ == TrackerState::initial(n_waypoints as int),
            r@.wf(),
    {
        SegmentTracker { current_waypoint: 1, current_path_segment: PathSegment::Line, n_waypoints }
    }

    /// The kind of the active segment.
    pub fn current_path_segment(&self) -> (r: PathSegment)
        ensures
            r == self@.segment,
    {
        self.current_path_segment
    }

    /// The waypoint number of the active segment, in `1..=n_waypoints - 1`.
    pub fn current_waypoint(&self) -> (r: usize)
        ensures
            r == self@.waypoint,
            self@.wf(),
    {
        proof {
            use_type_invariant(self);
        }
        self.current_waypoint
    }

    /// The number of waypoints of the path.
    pub fn n_waypoints(&self) -> (r: usize)
        ensures
            r == self@.n_waypoints,
            self@.wf(),
    {
        proof {
            use_type_invariant(self);
        }
        self.n_waypoints
    }

    /// The index, in the path's line vector (on a line) or fillet vector (on
    /// a fillet), of the active segment and of its thresholds. It is below
    /// the number of lines, `n_waypoints - 1`, and on a fillet below the
    /// number of fillets, `n_waypoints - 2`.
    pub fn segment_index(&self) -> (r: usize)
        ensures
            r == self@.waypoint - 1,
            r < self@.n_waypoints - 1,
            self@.segment == PathSegment::Circle ==> r < self@.n_waypoints - 2,
    {
        proof {
            use_type_invariant(self);
        }
        self.current_waypoint - 1
    }

    /// Moves to the segment that `crossing` leads to.
    pub fn step(&mut self, crossing: Crossing)
        ensures
            final(self)@ == old(self)@.next(crossing),
            final(self)@.wf(),
        no_unwind
    {
        proof {
            use_type_invariant(&*self);
            lemma_step_keeps_bounds(self@, crossing);
        }
        match self.current_path_segment {
            PathSegment::Line => match crossing {
                Crossing::AboveMax => {
                    if self.current_waypoint < self.n_waypoints - 1 {
                        self.current_path_segment = PathSegment::Circle;
                    }
                },
                Crossing::BelowMin => {
                    if self.current_waypoint > 1 {
                        *self = SegmentTracker {
                            current_waypoint: self.current_waypoint - 1,
                            current_path_segment: PathSegment::Circle,
                            n_waypoints: self.n_waypoints,
                        };
                    }
                },
                Crossing::Within => {},
            },
            PathSegment::Circle => match crossing {
                Crossing::AboveMax => {
                    *self = SegmentTracker {
                        current_waypoint: self.current_waypoint + 1,
                        current_path_segment: PathSegment::Line,
                        n_waypoints: self.n_waypoints,
                    };
                },
                Crossing::BelowMin => {
                    self.current_path_segment = PathSegment::Line;
                },
                Crossing::Within => {},
            },
        }
    }
}

/// Whatever the crossing, a step from a well-formed state keeps the
/// waypoint number in `1..=n_waypoints - 1` and names an existing fillet
/// when on a fillet.
pub proof fn lemma_step_keeps_bounds(s: TrackerState, crossing: Crossing)
    requires
        s.wf(),
    ensures
        s.next(crossing).wf(),
        s.next(crossing).n_waypoints == s.n_waypoints,
{
}

/// Every state reached from a well-formed state, through any sequence of
/// crossings, is well-formed: the waypoint number never falls below 1 nor
/// exceeds `n_waypoints - 1`, and the path keeps its waypoints.
pub proof fn lemma_run_keeps_bounds(s: TrackerState, crossings: Seq<Crossing>)
    requires
        s.wf(),
    ensures
        s.run(crossings).wf(),
        s.run(crossings).n_waypoints == s.n_waypoints,
    decreases crossings.len(),
{
    if crossings.len() > 0 {
        lemma_step_keeps_bounds(s, crossings[0]);
        lemma_run_keeps_bounds(s.next(crossings[0]), crossings.drop_first());
    }
}

/// Backtracking: a point that falls back below the start of any line but
/// the first re-enters the fillet before it, one waypoint back; on the first
/// line, which has no start, it stays where it is.
pub proof fn lemma_backtrack(s: TrackerState)
    requires
        s.wf(),
        s.segment == PathSegment::Line,
    ensures
        s.waypoint >= 2 ==> s.next(Crossing::BelowMin) == s.at(
            PathSegment::Circle,
            s.waypoint - 1,
        ),
        s.waypoint == 1 ==> s.next(Crossing::BelowMin) == s,
        s.next(Crossing::BelowMin).wf(),
{
}

/// Forward tracking: from any line but the last, passing the end of the
/// line enters the fillet at the same waypoint, and passing the end of that
/// fillet reaches the next line.
pub proof fn lemma_forward_through_fillet(s: TrackerState)
    requires
        s.wf(),
        s.segment == PathSegment::Line,
        s.waypoint < s.n_waypoints - 1,
    ensures
        s.next(Crossing::AboveMax) == s.at(PathSegment::Circle, s.waypoint),
        s.next(Crossing::AboveMax).next(Crossing::AboveMax) == s.at(
            PathSegment::Line,
            s.waypoint + 1,
        ),
        s.run(seq![Crossing::AboveMax, Crossing::AboveMax]) == s.at(
            PathSegment::Line,
            s.waypoint + 1,
        ),
{
    let cs = seq![Crossing::AboveMax, Crossing::AboveMax];
    assert(cs.drop_first().drop_first() =~= Seq::<Crossing>::empty());
    assert(cs.drop_first()[0] == Crossing::AboveMax);
    let s1 = s.next(Crossing::AboveMax);
    let s2 = s1.next(Crossing::AboveMax);
    assert(s2.run(cs.drop_first().drop_first()) == s2);
    assert(s1.run(cs.drop_first()) == s2);
}

/// Falling back into a fillet and then passing its end again returns to the
/// line that was left: on any line but the first, a backward crossing
/// followed by a forward one restores the state.
pub proof fn lemma_backtrack_then_forward(s: TrackerState)
    requires
        s.wf(),
        s.segment == PathSegment::Line,
        s.waypoint >= 2,
    ensures
        s.next(Crossing::BelowMin).next(Crossing::AboveMax) == s,
{
}

/// A segment stays active for as long as the path parameter stays within
/// its thresholds.
pub proof fn lemma_within_stays(s: TrackerState, n: nat)
    ensures
        s.run(Seq::new(n, |i: int| Crossing::Within)) == s,
    decreases n,
{
    let cs = Seq::new(n, |i: int| Crossing::Within);
    if n > 0 {
        assert(cs.drop_first() =~= Seq::new((n - 1) as nat, |i: int| Crossing::Within));
        lemma_within_stays(s, (n - 1) as nat);
    }
}

} // verus!
