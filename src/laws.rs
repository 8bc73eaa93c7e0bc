use vstd::prelude::*;
use crate::countdown::{countdown_text, remaining_secs};
use crate::span::{Span, NANOS_PER_SEC};
use crate::stage::Stage;
use crate::tracker::{elapsed_between, next_state, Pomodoro};

verus! {

/// The state after updates at each of `readings` in turn, each a monotonic
/// reading and a UTC time.
pub open spec fn after_updates(p: Pomodoro, readings: Seq<(Span, i64)>) -> Pomodoro
    decreases readings.len(),
{
    if readings.len() == 0 {
        p
    } else {
        let (now, wall_secs) = readings.last();
        next_state(after_updates(p, readings.drop_last()), now, wall_secs)
    }
}

/// The state after the first `i` of `readings`.
pub open spec fn state_at(p: Pomodoro, readings: Seq<(Span, i64)>, i: int) -> Pomodoro {
    after_updates(p, readings.take(i))
}

/// The state after `i + 1` readings is one update of the state after `i`.
proof fn lemma_state_at_step(p: Pomodoro, readings: Seq<(Span, i64)>, i: int)
    requires
        0 <= i < readings.len(),
    ensures
        state_at(p, readings, i + 1) == next_state(
            state_at(p, readings, i),
            readings[i].0,
            readings[i].1,
        ),
{
    assert(readings.take(i + 1).drop_last() =~= readings.take(i));
}

/// The study count after any run of updates is at least the one before.
proof fn lemma_count_never_falls(p: Pomodoro, readings: Seq<(Span, i64)>)
    ensures
        after_updates(p, readings).cycles >= p.cycles,
    decreases readings.len(),
{
    if readings.len() > 0 {
        lemma_count_never_falls(p, readings.drop_last());
    }
}

/// A phase that has run at least its full length shows `00:00`.
pub proof fn lemma_countdown_ends_at_zero(elapsed: Span, total: Span)
    requires
        total.nanos <= elapsed.nanos,
    ensures
        countdown_text(elapsed, total) == "00:00"@,
{
    vstd::arithmetic::div_mod::lemma_div_is_ordered(
        total.nanos as int,
        elapsed.nanos as int,
        NANOS_PER_SEC as int,
    );
    reveal_strlit("00:00");
    assert(countdown_text(elapsed, total) =~= "00:00"@);
}

/// From a study phase with no study phase finished: an update once the
/// study length has passed begins a break and counts one study phase; an
/// update once the break length has passed after that begins a study phase
/// again, and the count stays one.
pub proof fn lemma_study_then_break(p: Pomodoro, t1: Span, w1: i64, t2: Span, w2: i64)
    requires
        p.phase == Stage::Study,
        p.cycles == 0,
        t1.nanos >= p.phase_start.nanos + Stage::Study.length_nanos(),
        t2.nanos >= t1.nanos + Stage::Break.length_nanos(),
    ensures
        next_state(p, t1, w1).phase == Stage::Break,
        next_state(p, t1, w1).cycles == 1,
        next_state(p, t1, w1).phase_start == t1,
        next_state(next_state(p, t1, w1), t2, w2).phase == Stage::Study,
        next_state(next_state(p, t1, w1), t2, w2).cycles == 1,
{
}

/// An update in a study phase before the study length has passed keeps the
/// study phase, its start and the study count.
pub proof fn lemma_no_early_change(p: Pomodoro, now: Span, wall_secs: i64)
    requires
        p.phase == Stage::Study,
        elapsed_between(p.phase_start, now) < Stage::Study.length_nanos(),
    ensures
        next_state(p, now, wall_secs).phase == Stage::Study,
        next_state(p, now, wall_secs).phase_start == p.phase_start,
        next_state(p, now, wall_secs).cycles == p.cycles,
{
}

/// Over any run of updates, each update sets the elapsed time to the
/// non-negative time since the phase began, and the seconds left that the
/// countdown shows are never negative nor more than the phase length.
pub proof fn lemma_elapsed_never_negative(p: Pomodoro, readings: Seq<(Span, i64)>)
    ensures
        forall|i: int|
            0 <= i < readings.len() ==> {
                let before = #[trigger] state_at(p, readings, i);
                let after = state_at(p, readings, i + 1);
                &&& after.elapsed.nanos == elapsed_between(before.phase_start, readings[i].0)
                &&& after.elapsed.nanos >= 0
                &&& 0 <= remaining_secs(after.elapsed, after.phase_length)
                    <= after.phase_length.whole_secs()
            },
{
    assert forall|i: int| 0 <= i < readings.len() implies {
        let before = #[trigger] state_at(p, readings, i);
        let after = state_at(p, readings, i + 1);
        &&& after.elapsed.nanos == elapsed_between(before.phase_start, readings[i].0)
        &&& after.elapsed.nanos >= 0
        &&& 0 <= remaining_secs(after.elapsed, after.phase_length)
            <= after.phase_length.whole_secs()
    } by {
        lemma_state_at_step(p, readings, i);
    }
}

/// Over any run of updates the study count never falls, and it rises only
/// at an update that ends a study phase and begins a break, and then by one.
pub proof fn lemma_cycles_monotonic(p: Pomodoro, readings: Seq<(Span, i64)>)
    ensures
        after_updates(p, readings).cycles >= p.cycles,
        forall|i: int|
            0 <= i < readings.len() ==> {
                let before = #[trigger] state_at(p, readings, i);
                let after = state_at(p, readings, i + 1);
                &&& after.cycles >= before.cycles
                &&& after.cycles != before.cycles ==> {
                    &&& before.phase == Stage::Study
                    &&& after.phase == Stage::Break
                    &&& after.cycles == before.cycles + 1
                }
            },
{
    lemma_count_never_falls(p, readings);
    assert forall|i: int| 0 <= i < readings.len() implies {
        let before = #[trigger] state_at(p, readings, i);
        let after = state_at(p, readings, i + 1);
        &&& after.cycles >= before.cycles
        &&& after.cycles != before.cycles ==> {
            &&& before.phase == Stage::Study
            &&& after.phase == Stage::Break
            &&& after.cycles == before.cycles + 1
        }
    } by {
        lemma_state_at_step(p, readings, i);
    }
}

} // verus!
