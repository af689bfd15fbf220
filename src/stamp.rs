//! The time stamp of a published reference.
use vstd::prelude::*;

verus! {

/// Seconds and nanoseconds since the Unix epoch, in the widths of the
/// message header: seconds as a signed 32-bit count.
#[derive(Clone, Copy, Debug, PartialEq, Eq, Structural)]
pub struct Stamp {
    pub sec: i32,
    pub nanosec: u32,
}

impl Stamp {
    /// The stamp of a time `secs` seconds and `nanos` nanoseconds after the
    /// epoch. The seconds are cut to their low 32 bits, read as a signed
    /// count; they are kept as they are while they fit.
    pub fn from_epoch(secs: u64, nanos: u32) -> (r: Stamp)
        ensures
            r.sec == secs as i32,
            secs <= i32::MAX ==> r.sec as int == secs as int,
            r.nanosec == nanos,
    {
        proof {
            lemma_small_seconds_kept(secs);
        }
        Stamp { sec: #[verifier::truncate] (secs as i32), nanosec: nanos }
    }
}

proof fn lemma_small_seconds_kept(secs: u64)
    ensures
        secs <= 0x7fff_ffff ==> (secs as i32) as u64 == secs,
        secs <= 0x7fff_ffff ==> (secs as i32) >= 0,
{
    assert(secs <= 0x7fff_ffff ==> (secs as i32) as u64 == secs) by (bit_vector);
    assert(secs <= 0x7fff_ffff ==> (secs as i32) >= 0) by (bit_vector);
}

} // verus!
