use ilos_guidance::params::{ParameterAction, ParameterEvent, ParameterExchange};
use ilos_guidance::stamp::Stamp;

#[test]
fn stamp_keeps_small_seconds() {
    let s = Stamp::from_epoch(1_700_000_000, 123_456_789);
    assert_eq!(s, Stamp { sec: 1_700_000_000, nanosec: 123_456_789 });
}

#[test]
fn stamp_zero() {
    assert_eq!(Stamp::from_epoch(0, 0), Stamp { sec: 0, nanosec: 0 });
}

#[test]
fn stamp_cuts_large_seconds() {
    assert_eq!(Stamp::from_epoch(2_147_483_648, 5).sec, -2_147_483_648);
    assert_eq!(Stamp::from_epoch(4_294_967_296 + 7, 5).sec, 7);
    assert_eq!(Stamp::from_epoch(i32::MAX as u64, 0).sec, i32::MAX);
}

#[test]
fn query_reports_initial_pair() {
    let mut ex = ParameterExchange::new((1.0f64, 0.01f64));
    match ex.handle(ParameterEvent::Queried) {
        ParameterAction::Reply(p) => assert_eq!(p, (1.0, 0.01)),
        _ => panic!("expected a reply"),
    }
}

#[test]
fn received_pair_is_applied_and_reported() {
    let mut ex = ParameterExchange::new((1.0f64, 0.01f64));
    match ex.handle(ParameterEvent::Received((2.5, 0.2))) {
        ParameterAction::Apply(p) => assert_eq!(p, (2.5, 0.2)),
        _ => panic!("expected the pair to be applied"),
    }
    assert!(matches!(ex.handle(ParameterEvent::Malformed), ParameterAction::Ignore));
    assert_eq!(ex.current(), (2.5, 0.2));
    match ex.handle(ParameterEvent::Queried) {
        ParameterAction::Reply(p) => assert_eq!(p, (2.5, 0.2)),
        _ => panic!("expected a reply"),
    }
}

#[test]
fn malformed_message_changes_nothing() {
    let mut ex = ParameterExchange::new((3.0f64, 0.0f64));
    assert!(matches!(ex.handle(ParameterEvent::Malformed), ParameterAction::Ignore));
    assert_eq!(ex.current(), (3.0, 0.0));
}
