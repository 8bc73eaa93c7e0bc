use vstd::prelude::*;
use crate::clock::{monotonic_since, utc_now_secs};
use crate::span::Span;
use crate::stage::Stage;
use std::time::Instant;

verus! {

/// The largest count of finished study phases; the count stays there.
pub const MAX_CYCLES: u8 = 255;

/// The state of one timer session.
pub struct Pomodoro {
    /// The phase that is running.
    pub phase: Stage,
    /// The full length of the phase that was running at the last update.
    /// An update that changes phase leaves the length of the phase that
    /// ended here; the next update sets the new one.
    pub phase_length: Span,
    /// Monotonic reading, measured from `origin`, at which the phase began.
    pub phase_start: Span,
    /// Time since `phase_start`, as of the last update.
    pub elapsed: Span,
    /// UTC time of the last update, in whole seconds since the Unix epoch.
    /// Shown to the user; it plays no part in the phase changes.
    pub wall_secs: i64,
    /// Number of study phases that have run to their end.
    pub cycles: u8,
    /// The monotonic instant from which readings are measured.
    pub origin: Instant,
}

/// The phase that follows `s`.
pub open spec fn following(s: Stage) -> Stage {
    match s {
        Stage::Study => Stage::Break,
        Stage::Break => Stage::Study,
    }
}

/// Time between `start` and the reading `now`, or zero if `now` comes first.
pub open spec fn elapsed_between(start: Span, now: Span) -> nat {
    if start.nanos <= now.nanos {
        (now.nanos - start.nanos) as nat
    } else {
        0
    }
}

/// The study count after one more study phase has ended.
pub open spec fn bumped(c: u8) -> u8 {
    if c < MAX_CYCLES {
        (c + 1) as u8
    } else {
        c
    }
}

/// The state after one update at monotonic reading `now` and UTC time
/// `wall_secs`: the phase length and elapsed time are refreshed, and if the
/// phase has run its full length the next phase begins at `now`. At most
/// one phase change happens per update.
pub open spec fn next_state(p: Pomodoro, now: Span, wall_secs: i64) -> Pomodoro {
    let length = Span { nanos: p.phase.length_nanos() as u128 };
    let elapsed = Span { nanos: elapsed_between(p.phase_start, now) as u128 };
    if elapsed.nanos >= length.nanos {
        Pomodoro {
            phase: following(p.phase),
            phase_length: length,
            phase_start: now,
            elapsed,
            wall_secs,
            cycles: if p.phase == Stage::Study { bumped(p.cycles) } else { p.cycles },
            origin: p.origin,
        }
    } else {
        Pomodoro { phase_length: length, elapsed, wall_secs, ..p }
    }
}

impl Pomodoro {
    /// A session that begins now, in a study phase, with no study phase
    /// finished yet.
    pub fn new() -> (r: Pomodoro)
        ensures
            r.phase == Stage::Study,
            r.phase_length.nanos == Stage::Study.length_nanos(),
            r.phase_start.nanos == 0,
            r.elapsed.nanos == 0,
            r.cycles == 0,
    {
        let origin = Instant::now();
        Pomodoro {
            phase: Stage::Study,
            phase_length: Stage::Study.length(),
            phase_start: Span { nanos: 0 },
            elapsed: Span { nanos: 0 },
            wall_secs: utc_now_secs(),
            cycles: 0,
            origin,
        }
    }

    /// One update at monotonic reading `now` (measured from `origin`) and
    /// UTC time `wall_secs`.
    pub fn tick(&mut self, now: Span, wall_secs: i64)
        ensures
            *final(self) == next_state(*old(self), now, wall_secs),
    {
        let length = self.phase.length();
        self.phase_length = length;
        self.wall_secs = wall_secs;
        let elapsed: u128 = if self.phase_start.nanos <= now.nanos {
            now.nanos - self.phase_start.nanos
        } else {
            0
        };
        self.elapsed = Span { nanos: elapsed };
        if elapsed >= length.nanos {
            match self.phase {
                Stage::Study => {
                    self.phase_start = now;
                    self.phase = Stage::Break;
                    if self.cycles < MAX_CYCLES {
                        self.cycles = self.cycles + 1;
                    }
                },
                Stage::Break => {
                    self.phase_start = now;
                    self.phase = Stage::Study;
                },
            }
        }
    }

    /// One update at the current time: reads both clocks and applies
    /// [`Pomodoro::tick`]. Whatever the clocks read, the new state is one
    /// update of the old one.
    pub fn run(&mut self)
        ensures
            exists|now: Span, wall_secs: i64|
                #[trigger] next_state(*old(self), now, wall_secs) == *final(self),
            final(self).origin == old(self).origin,
            final(self).cycles >= old(self).cycles,
    {
        let wall_secs = utc_now_secs();
        let now = monotonic_since(&self.origin);
        self.tick(now, wall_secs);
    }
}

} // verus!
