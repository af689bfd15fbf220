//! The exact parts of an Integral Line-Of-Sight guidance system.
//!
//! A vehicle is steered along a path made of straight lines joined by
//! circular fillets. The floating-point geometry and the feedback law are
//! supplied by the user of this library; what is decided here is:
//! - which segment of a waypoint path is active, as the tracked point moves
//!   past the thresholds of each segment (`tracker`, `waypoints`);
//! - which gain pair the reconfiguration service holds and reports
//!   (`params`);
//! - the time stamp carried by each published reference (`stamp`).
use vstd::prelude::*;

pub mod params;
pub mod stamp;
pub mod tracker;
pub mod waypoints;

verus! {

} // verus!
