//! Wire timestamps, modeled as seconds since the epoch plus a nanosecond
//! part. The unverified wire layer renders them in the transport's text form;
//! the codec only stores and compares them.

use vstd::prelude::*;

verus! {

#[derive(Clone, Copy, Debug, PartialEq, Eq, Structural)]
pub struct Timestamp {
    pub seconds: i64,
    pub nanos: u32,
}

impl Timestamp {
    pub open spec fn wf(&self) -> bool {
        self.nanos < 1_000_000_000
    }

    /// Strict ordering: by seconds, then by the nanosecond part.
    pub open spec fn spec_lt(&self, other: &Timestamp) -> bool {
        self.seconds < other.seconds || (self.seconds == other.seconds && self.nanos
            < other.nanos)
    }

    /// The epoch, the placeholder a fresh user's last-claim time starts at.
    pub fn epoch() -> (r: Timestamp)
        ensures
            r.seconds == 0,
            r.nanos == 0,
            r.wf(),
    {
        Timestamp { seconds: 0, nanos: 0 }
    }

    pub fn new(seconds: i64, nanos: u32) -> (r: Timestamp)
        requires
            nanos < 1_000_000_000,
        ensures
            r.seconds == seconds,
            r.nanos == nanos,
            r.wf(),
    {
        Timestamp { seconds, nanos }
    }

    pub fn lt(&self, other: &Timestamp) -> (r: bool)
        ensures
            r == self.spec_lt(other),
    {
        self.seconds < other.seconds || (self.seconds == other.seconds && self.nanos
            < other.nanos)
    }
}

} // verus!
