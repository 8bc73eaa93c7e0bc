use pomodoro::{format_duration, Pomodoro, Span, Stage};

fn secs(s: u64) -> Span {
    Span::from_secs(s)
}

#[test]
fn labels_of_both_phases() {
    assert_eq!(Stage::Study.disp(), "Study");
    assert_eq!(Stage::Break.disp(), "Break");
}

#[test]
fn phase_lengths() {
    assert_eq!(Stage::Study.length(), secs(1200));
    assert_eq!(Stage::Break.length(), secs(300));
}

#[test]
fn span_constructors() {
    assert_eq!(secs(2).nanos, 2_000_000_000);
    assert_eq!(Span::from_millis(1500).nanos, 1_500_000_000);
    assert_eq!(Span::from_millis(1999).as_secs(), 1);
}

#[test]
fn format_full_study_phase() {
    assert_eq!(format_duration(secs(0), secs(1200)), "20:00");
}

#[test]
fn format_round_values() {
    assert_eq!(format_duration(secs(1200), secs(1200)), "00:00");
    assert_eq!(format_duration(secs(900), secs(1200)), "05:00");
    assert_eq!(format_duration(secs(0), secs(300)), "05:00");
}

#[test]
fn format_clamps_when_phase_is_over() {
    assert_eq!(format_duration(secs(1201), secs(1200)), "00:00");
    assert_eq!(format_duration(secs(100_000), secs(300)), "00:00");
    assert_eq!(format_duration(Span::from_millis(300_500), secs(300)), "00:00");
}

#[test]
fn format_truncates_each_side_to_whole_seconds() {
    assert_eq!(format_duration(Span::from_millis(1_199_900), secs(1200)), "00:01");
    assert_eq!(format_duration(Span::from_millis(900), Span::from_millis(1900)), "00:01");
}

#[test]
fn format_pads_and_splits() {
    assert_eq!(format_duration(secs(250), secs(300)), "00:50");
    assert_eq!(format_duration(secs(50), secs(300)), "04:10");
    assert_eq!(format_duration(secs(0), secs(9)), "00:09");
    assert_eq!(format_duration(secs(0), secs(61)), "01:01");
}

#[test]
fn format_minutes_widen_past_two_digits() {
    assert_eq!(format_duration(secs(0), secs(1500)), "25:00");
    assert_eq!(format_duration(secs(0), secs(6000)), "100:00");
    assert_eq!(format_duration(secs(1), secs(60_000_000)), "999999:59");
}

#[test]
fn new_session_starts_in_study() {
    let p = Pomodoro::new();
    assert_eq!(p.phase, Stage::Study);
    assert_eq!(p.cycles, 0);
    assert_eq!(p.elapsed, secs(0));
    assert_eq!(p.phase_start, secs(0));
    assert_eq!(p.phase_length, secs(1200));
}

#[test]
fn run_right_after_start_keeps_study() {
    let mut p = Pomodoro::new();
    p.run();
    assert_eq!(p.phase, Stage::Study);
    assert_eq!(p.cycles, 0);
    assert!(p.elapsed.nanos < secs(1200).nanos);
    assert_eq!(p.phase_length, secs(1200));
}

#[test]
fn study_then_break_then_study() {
    let mut p = Pomodoro::new();
    p.tick(secs(1200), 0);
    assert_eq!(p.phase, Stage::Break);
    assert_eq!(p.cycles, 1);
    assert_eq!(p.phase_start, secs(1200));
    p.tick(secs(1500), 0);
    assert_eq!(p.phase, Stage::Study);
    assert_eq!(p.cycles, 1);
    assert_eq!(p.phase_start, secs(1500));
}

#[test]
fn break_not_over_before_its_length() {
    let mut p = Pomodoro::new();
    p.tick(secs(1200), 0);
    p.tick(Span { nanos: secs(1500).nanos - 1 }, 0);
    assert_eq!(p.phase, Stage::Break);
    assert_eq!(p.phase_length, secs(300));
    assert_eq!(p.cycles, 1);
}

#[test]
fn no_change_before_study_length() {
    let mut p = Pomodoro::new();
    p.tick(secs(600), 0);
    assert_eq!(p.phase, Stage::Study);
    assert_eq!(p.cycles, 0);
    assert_eq!(p.elapsed, secs(600));
    p.tick(Span::from_millis(1_199_999), 0);
    assert_eq!(p.phase, Stage::Study);
    assert_eq!(p.cycles, 0);
    assert_eq!(p.phase_start, secs(0));
}

#[test]
fn long_gap_changes_phase_once() {
    let mut p = Pomodoro::new();
    p.tick(secs(100_000), 0);
    assert_eq!(p.phase, Stage::Break);
    assert_eq!(p.cycles, 1);
    assert_eq!(p.elapsed, secs(100_000));
}

#[test]
fn reading_before_phase_start_gives_zero_elapsed() {
    let mut p = Pomodoro::new();
    p.phase_start = secs(10);
    p.tick(secs(5), 0);
    assert_eq!(p.elapsed, secs(0));
    assert_eq!(p.phase, Stage::Study);
}

#[test]
fn cycle_count_stays_at_its_largest_value() {
    let mut p = Pomodoro::new();
    p.cycles = 255;
    p.tick(secs(1200), 0);
    assert_eq!(p.phase, Stage::Break);
    assert_eq!(p.cycles, 255);
}

#[test]
fn cycle_count_never_falls() {
    let mut p = Pomodoro::new();
    let mut last = p.cycles;
    let mut t: u64 = 0;
    for _ in 0..40 {
        t += 400;
        p.tick(secs(t), 0);
        assert!(p.cycles >= last);
        last = p.cycles;
    }
    assert!(p.cycles > 0);
}

#[test]
fn wall_time_is_recorded_on_each_tick() {
    let mut p = Pomodoro::new();
    p.tick(secs(3), 1_700_000_000);
    assert_eq!(p.wall_secs, 1_700_000_000);
    p.tick(secs(4), 1_700_000_001);
    assert_eq!(p.wall_secs, 1_700_000_001);
}

#[test]
fn session_scenario() {
    let mut p = Pomodoro::new();
    p.tick(secs(0), 0);
    assert_eq!(p.phase, Stage::Study);
    assert_eq!(format_duration(p.elapsed, p.phase_length), "20:00");
    p.tick(secs(1205), 0);
    assert_eq!(p.phase, Stage::Break);
    assert_eq!(p.cycles, 1);
    assert_eq!(p.phase_start, secs(1205));
    p.tick(secs(1255), 0);
    assert_eq!(p.phase, Stage::Break);
    assert_eq!(p.elapsed, secs(50));
    assert_eq!(p.phase_length, secs(300));
    assert_eq!(format_duration(p.elapsed, p.phase_length), "04:10");
}
