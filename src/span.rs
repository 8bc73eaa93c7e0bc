use vstd::prelude::*;

verus! {

/// Nanoseconds in one second.
pub const NANOS_PER_SEC: u128 = 1_000_000_000;

/// A non-negative length of time, counted in nanoseconds.
///
/// Readings of the monotonic clock are also held as a `Span`: the time
/// since a fixed origin that the tracker keeps.
#[derive(Clone, Copy, Debug, PartialEq, Eq, Structural)]
pub struct Span {
    pub nanos: u128,
}

impl Span {
    /// Number of whole seconds in the span; the fraction is dropped.
    pub open spec fn whole_secs(self) -> nat {
        (self.nanos / NANOS_PER_SEC) as nat
    }

    /// A span of exactly `secs` seconds.
    pub fn from_secs(secs: u64) -> (r: Span)
        ensures
            r.nanos == secs as int * NANOS_PER_SEC,
            r.whole_secs() == secs,
    {
        let r = Span { nanos: secs as u128 * NANOS_PER_SEC };
        assert(r.whole_secs() == secs) by (nonlinear_arith)
            requires r.nanos == secs as int * 1_000_000_000, r.whole_secs() == (r.nanos / 1_000_000_000) as nat;
        r
    }

    /// A span of exactly `millis` milliseconds.
    pub fn from_millis(millis: u64) -> (r: Span)
        ensures
            r.nanos == millis as int * 1_000_000,
    {
        Span { nanos: millis as u128 * 1_000_000 }
    }

    /// The number of whole seconds in the span.
    pub fn as_secs(&self) -> (r: u128)
        ensures
            r == self.whole_secs(),
    {
        self.nanos / NANOS_PER_SEC
    }
}

} // verus!
