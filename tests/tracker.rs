use ilos_guidance::tracker::{Crossing, PathSegment, SegmentTracker};

fn state(t: &SegmentTracker) -> (PathSegment, usize) {
    (t.current_path_segment(), t.current_waypoint())
}

#[test]
fn starts_on_first_line() {
    let t = SegmentTracker::new(3);
    assert_eq!(state(&t), (PathSegment::Line, 1));
    assert_eq!(t.n_waypoints(), 3);
    assert_eq!(t.segment_index(), 0);
}

#[test]
fn forward_tracking_three_waypoints() {
    // Waypoints (0,0), (1,1), (2,0): two lines and one fillet.
    let mut t = SegmentTracker::new(3);
    t.step(Crossing::Within);
    assert_eq!(state(&t), (PathSegment::Line, 1));
    t.step(Crossing::AboveMax);
    assert_eq!(state(&t), (PathSegment::Circle, 1));
    assert_eq!(t.segment_index(), 0);
    t.step(Crossing::Within);
    assert_eq!(state(&t), (PathSegment::Circle, 1));
    t.step(Crossing::AboveMax);
    assert_eq!(state(&t), (PathSegment::Line, 2));
    assert_eq!(t.segment_index(), 1);
}

#[test]
fn last_line_has_no_end() {
    let mut t = SegmentTracker::new(3);
    t.step(Crossing::AboveMax);
    t.step(Crossing::AboveMax);
    t.step(Crossing::AboveMax);
    assert_eq!(state(&t), (PathSegment::Line, 2));
}

#[test]
fn first_line_has_no_start() {
    let mut t = SegmentTracker::new(4);
    t.step(Crossing::BelowMin);
    assert_eq!(state(&t), (PathSegment::Line, 1));
}

#[test]
fn backtracking_reenters_prior_fillet() {
    let mut t = SegmentTracker::new(4);
    t.step(Crossing::AboveMax);
    t.step(Crossing::AboveMax);
    assert_eq!(state(&t), (PathSegment::Line, 2));
    t.step(Crossing::BelowMin);
    assert_eq!(state(&t), (PathSegment::Circle, 1));
    t.step(Crossing::BelowMin);
    assert_eq!(state(&t), (PathSegment::Line, 1));
    t.step(Crossing::BelowMin);
    assert_eq!(state(&t), (PathSegment::Line, 1));
}

#[test]
fn backtrack_then_forward_returns() {
    let mut t = SegmentTracker::new(5);
    for _ in 0..4 {
        t.step(Crossing::AboveMax);
    }
    assert_eq!(state(&t), (PathSegment::Line, 3));
    t.step(Crossing::BelowMin);
    assert_eq!(state(&t), (PathSegment::Circle, 2));
    t.step(Crossing::AboveMax);
    assert_eq!(state(&t), (PathSegment::Line, 3));
}

#[test]
fn waypoint_stays_in_range() {
    let n: usize = 4;
    let mut t = SegmentTracker::new(n);
    let pattern = [
        Crossing::AboveMax,
        Crossing::BelowMin,
        Crossing::Within,
        Crossing::AboveMax,
        Crossing::AboveMax,
        Crossing::AboveMax,
    ];
    for i in 0..200 {
        t.step(pattern[(i * 7 + i / 3) % pattern.len()]);
        let w = t.current_waypoint();
        assert!(w >= 1 && w <= n - 1);
        if t.current_path_segment() == PathSegment::Circle {
            assert!(w <= n - 2);
        }
    }
}

#[test]
fn two_waypoints_single_line() {
    let mut t = SegmentTracker::new(2);
    t.step(Crossing::AboveMax);
    assert_eq!(state(&t), (PathSegment::Line, 1));
    t.step(Crossing::BelowMin);
    assert_eq!(state(&t), (PathSegment::Line, 1));
}

#[test]
fn fillet_fallback_returns_to_entry_line() {
    let mut t = SegmentTracker::new(3);
    t.step(Crossing::AboveMax);
    t.step(Crossing::BelowMin);
    assert_eq!(state(&t), (PathSegment::Line, 1));
}

#[test]
fn upper_threshold_checked_first() {
    assert_eq!(Crossing::from_comparisons(true, true), Crossing::AboveMax);
    assert_eq!(Crossing::from_comparisons(true, false), Crossing::AboveMax);
    assert_eq!(Crossing::from_comparisons(false, true), Crossing::BelowMin);
    assert_eq!(Crossing::from_comparisons(false, false), Crossing::Within);
}
