//! Points in time as the exchange reports them.
use vstd::prelude::*;

verus! {

/// A date-time in UTC without a zone: whole seconds since 1970-01-01T00:00:00 and the
/// nanoseconds past that second.
#[derive(Debug, Clone, Copy, PartialEq, Eq, Hash, Structural)]
pub struct Timestamp {
    pub seconds: i64,
    pub nanos: u32,
}

impl Default for Timestamp {
    /// 1970-01-01T00:00:00.
    fn default() -> (r: Timestamp)
        ensures
            r.seconds == 0 && r.nanos == 0,
    {
        Timestamp { seconds: 0, nanos: 0 }
    }
}

/// A date-time with its offset from UTC: the instant as seconds since the epoch in UTC and
/// nanoseconds, and the offset east of UTC in seconds.
#[derive(Debug, Clone, Copy, PartialEq, Eq, Hash, Structural)]
pub struct ZonedTimestamp {
    pub seconds: i64,
    pub nanos: u32,
    pub offset_seconds: i32,
}

} // verus!
