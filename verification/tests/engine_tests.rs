use rtimer::appstate::AppState;
use rtimer::config::Config;
use rtimer::state::{Notice, Phase};
use rtimer::stats::Statistics;

fn fresh_app() -> AppState {
    AppState::create_app_state_from_args(
        Config::default(),
        Statistics::fresh("2024-01-01".to_string()),
    )
}

#[test]
fn fresh_state_starts_in_work() {
    let app = fresh_app();
    assert!(matches!(app.phase, Phase::Work));
    assert_eq!(app.session_count, 1);
    assert_eq!(app.time_remaining_ms, 1_500_000);
    assert!(!app.paused);
}

#[test]
fn tick_counts_down_by_50ms() {
    let mut app = fresh_app();
    app.update_timer(0, "t".to_string(), 0);
    assert_eq!(app.time_remaining_ms, 1_500_000 - 50);
    assert_eq!(app.animation_frame, 1);
}

#[test]
fn remaining_never_increases_without_completion() {
    let mut app = fresh_app();
    let mut last = app.time_remaining_ms;
    for i in 0..200 {
        app.update_timer(i * 50, format!("t{}", i), 0);
        assert!(app.time_remaining_ms <= last);
        last = app.time_remaining_ms;
    }
}

#[test]
fn paused_tick_changes_nothing_but_animation() {
    let mut app = fresh_app();
    app.toggle_pause();
    app.update_timer(0, "t".to_string(), 0);
    assert_eq!(app.time_remaining_ms, 1_500_000);
}

#[test]
fn long_break_every_fourth_session() {
    let mut app = fresh_app();
    assert_eq!(app.sessions_before_long_break, 4);
    let mut breaks = Vec::new();
    for i in 0..8 {
        // Complete the running work session, then the break after it.
        assert!(matches!(app.phase, Phase::Work));
        app.next_phase(format!("w{}", i), 0);
        breaks.push(app.phase);
        app.next_phase(format!("b{}", i), 0);
    }
    let expect = [
        Phase::ShortBreak,
        Phase::ShortBreak,
        Phase::ShortBreak,
        Phase::LongBreak,
        Phase::ShortBreak,
        Phase::ShortBreak,
        Phase::ShortBreak,
        Phase::LongBreak,
    ];
    assert_eq!(breaks, expect);
}

#[test]
fn completing_work_updates_ledger() {
    let mut app = fresh_app();
    app.next_phase("ts".to_string(), 2);
    assert_eq!(app.stats.total_sessions, 1);
    assert_eq!(app.stats.sessions_today, 1);
    assert_eq!(app.stats.total_work_time, 25);
    assert_eq!(app.stats.weekly_sessions, vec![0, 0, 1, 0, 0, 0, 0]);
    assert_eq!(app.session_count, 2);
    assert!(app.needs_stats_save);
    assert_eq!(app.stats.session_history.len(), 1);
    let rec = &app.stats.session_history[0];
    assert_eq!(rec.timestamp, "ts");
    assert_eq!(rec.phase_type, "Work");
    assert_eq!(rec.duration, 25);
    // Skipped with 25 minutes left: not a natural completion.
    assert!(!rec.completed);
    assert_eq!(app.take_notices(), vec![Notice::ShortBreakStart]);
}

#[test]
fn near_zero_skip_counts_as_completed() {
    let mut app = fresh_app();
    app.time_remaining_ms = 4_999;
    app.next_phase("ts".to_string(), 0);
    assert!(app.stats.session_history[0].completed);
}

#[test]
fn break_completion_returns_to_work() {
    let mut app = fresh_app();
    app.next_phase("w".to_string(), 0);
    assert!(matches!(app.phase, Phase::ShortBreak));
    assert_eq!(app.time_remaining_ms, 300_000);
    app.next_phase("b".to_string(), 0);
    assert!(matches!(app.phase, Phase::Work));
    assert_eq!(app.stats.total_break_time, 5);
    assert_eq!(app.take_notices(), vec![Notice::ShortBreakStart, Notice::BackToWork]);
}

#[test]
fn auto_start_controls_pause_after_completion() {
    let mut app = fresh_app();
    app.auto_start_next = false;
    app.next_phase("w".to_string(), 0);
    assert!(app.paused);
    app.auto_start_next = true;
    app.next_phase("b".to_string(), 0);
    assert!(!app.paused);
}

#[test]
fn history_caps_at_one_hundred_entries() {
    let mut app = fresh_app();
    for i in 0..101 {
        app.next_phase(format!("t{}", i), 0);
    }
    assert_eq!(app.stats.session_history.len(), 100);
    // The oldest entry (t0) was evicted; order of the rest kept.
    assert_eq!(app.stats.session_history[0].timestamp, "t1");
    assert_eq!(app.stats.session_history[99].timestamp, "t100");
}

#[test]
fn reset_timer_restores_full_phase_and_unpauses() {
    let mut app = fresh_app();
    app.time_remaining_ms = 12;
    app.paused = true;
    let history_before = app.stats.session_history.len();
    app.reset_timer();
    assert_eq!(app.time_remaining_ms, 1_500_000);
    assert!(!app.paused);
    assert_eq!(app.stats.session_history.len(), history_before);
}

#[test]
fn countdown_reaching_zero_completes_phase() {
    let mut app = fresh_app();
    app.time_remaining_ms = 1_020;
    app.update_timer(0, "t".to_string(), 0);
    // 970 ms left: under a second, so the phase completes.
    assert!(matches!(app.phase, Phase::ShortBreak));
    assert!(app.stats.session_history[0].completed);
}

#[test]
fn extended_break_reminder_fires_and_resets() {
    let mut app = fresh_app();
    app.work_time_since_break_ms = 7_200_000;
    // Within the 60 s throttle window: nothing happens.
    app.check_extended_break_reminder(59_999);
    assert_eq!(app.take_notices(), vec![]);
    assert_eq!(app.work_time_since_break_ms, 7_200_000);
    // Past the window: the warning fires and the accumulator clears.
    app.check_extended_break_reminder(60_000);
    assert_eq!(app.take_notices(), vec![Notice::ExtendedBreakWarning]);
    assert_eq!(app.work_time_since_break_ms, 0);
    assert_eq!(app.last_extended_break_check_ms, 60_000);
}

#[test]
fn long_break_clears_work_accumulator() {
    let mut app = fresh_app();
    app.session_count = 4;
    app.work_time_since_break_ms = 3_600_000;
    app.next_phase("w".to_string(), 0);
    assert!(matches!(app.phase, Phase::LongBreak));
    assert_eq!(app.work_time_since_break_ms, 0);
}

#[test]
fn autosave_waits_five_seconds_and_clears_on_success() {
    let mut app = fresh_app();
    assert!(!app.should_autosave(10_000));
    app.mark_stats_dirty();
    assert!(!app.should_autosave(4_999));
    assert!(app.should_autosave(5_000));
    app.finish_autosave(5_000, false);
    assert!(app.needs_stats_save);
    assert_eq!(app.last_auto_save_ms, 5_000);
    assert!(!app.should_autosave(9_999));
    assert!(app.should_autosave(10_000));
    app.finish_autosave(10_000, true);
    assert!(!app.needs_stats_save);
}

#[test]
fn daily_reset_rotates_week_and_zeroes_today() {
    let mut stats = Statistics::fresh("2024-01-01".to_string());
    stats.sessions_today = 7;
    stats.weekly_sessions = vec![1, 2, 3, 4, 5, 6, 7];
    stats.reset_daily_stats_if_needed("2024-01-02".to_string());
    assert_eq!(stats.sessions_today, 0);
    assert_eq!(stats.last_session_date, "2024-01-02");
    assert_eq!(stats.weekly_sessions, vec![2, 3, 4, 5, 6, 7, 0]);
    // A second application on the same day is a no-op.
    stats.reset_daily_stats_if_needed("2024-01-02".to_string());
    assert_eq!(stats.sessions_today, 0);
    assert_eq!(stats.weekly_sessions, vec![2, 3, 4, 5, 6, 7, 0]);
}

#[test]
fn normalize_repairs_weekly_and_trims_history() {
    let mut stats = Statistics::fresh("2024-01-01".to_string());
    stats.weekly_sessions = vec![1, 2, 3];
    stats.normalize();
    assert_eq!(stats.weekly_sessions, vec![0, 0, 0, 0, 0, 0, 0]);
}

#[test]
fn resume_snapshot_round_trip() {
    let mut app = fresh_app();
    app.time_remaining_ms = 754_300;
    app.paused = true;
    app.session_count = 3;
    app.phase = Phase::ShortBreak;
    let snap = app.timer_snapshot();
    assert_eq!(snap.time_remaining_secs, 754);
    assert_eq!(snap.phase, "short_break");
    assert_eq!(snap.session_count, 3);
    assert!(snap.paused);
    let restored = AppState::create_app_state_from_saved(
        snap,
        Config::default(),
        Statistics::fresh("2024-01-01".to_string()),
    );
    assert_eq!(restored.time_remaining_ms, 754_000);
    assert!(restored.paused);
    assert_eq!(restored.session_count, 3);
    assert!(matches!(restored.phase, Phase::ShortBreak));
}

#[test]
fn clock_stamped_tick_counts_down() {
    let mut app = fresh_app();
    app.update_timer_now(0);
    assert_eq!(app.time_remaining_ms, 1_500_000 - 50);
}
