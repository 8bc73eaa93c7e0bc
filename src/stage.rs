use vstd::prelude::*;
use crate::span::{Span, NANOS_PER_SEC};

verus! {

/// Length of a study phase, in seconds.
pub const STUDY_SECS: u64 = 1200;

/// Length of a break phase, in seconds.
pub const BREAK_SECS: u64 = 300;

/// The two phases that the timer alternates between.
#[derive(PartialEq, Eq, Structural, Copy, Clone, Debug)]
pub enum Stage {
    Study,
    Break,
}

impl Stage {
    /// The label shown for the phase.
    pub open spec fn label(self) -> Seq<char> {
        match self {
            Stage::Study => "Study"@,
            Stage::Break => "Break"@,
        }
    }

    /// The fixed length of the phase, in seconds.
    pub open spec fn length_secs(self) -> nat {
        match self {
            Stage::Study => STUDY_SECS as nat,
            Stage::Break => BREAK_SECS as nat,
        }
    }

    /// The fixed length of the phase, in nanoseconds.
    pub open spec fn length_nanos(self) -> int {
        self.length_secs() * NANOS_PER_SEC
    }

    /// The label shown for the phase: `"Study"` or `"Break"`.
    pub fn disp(&self) -> (r: &str)
        ensures
            r@ == self.label(),
    {
        match *self {
            Self::Study => "Study",
            Self::Break => "Break",
        }
    }

    /// The fixed length of the phase.
    pub fn length(&self) -> (r: Span)
        ensures
            r.nanos == self.length_nanos(),
            r.whole_secs() == self.length_secs(),
    {
        match *self {
            Self::Study => Span::from_secs(STUDY_SECS),
            Self::Break => Span::from_secs(BREAK_SECS),
        }
    }
}

} // verus!
