//! Wall-clock readings, as plain numbers.

use filetime::FileTime;
use vstd::prelude::*;

verus! {

/// A point in time: whole seconds relative to the Unix epoch
/// (1970-01-01T00:00:00Z; negative before it) and nanoseconds counted
/// forward from that second.
#[derive(Clone, Copy, Debug, PartialEq, Eq, Structural)]
pub struct Timestamp {
    pub seconds: i64,
    pub nanos: u32,
}

impl Timestamp {
    /// The nanosecond part stays below one full second.
    pub open spec fn wf(self) -> bool {
        self.nanos < 1_000_000_000
    }
}

/// Reads the system clock through `filetime::FileTime::now` and hands the
/// reading back as Unix seconds and nanoseconds.
///
/// Trusted: the body is not verified. The contract claims only that the
/// nanosecond part is below one billion, which `FileTime` builds from the
/// sub-second part of a `Duration`. Which instant comes back is left open;
/// two readings need not agree.
#[verifier::external_body]
pub(crate) fn now() -> (t: Timestamp)
    ensures
        t.wf(),
{
    let reading = FileTime::now();
    Timestamp { seconds: reading.unix_seconds(), nanos: reading.nanoseconds() }
}

} // verus!
