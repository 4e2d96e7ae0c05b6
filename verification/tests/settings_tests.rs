use rtimer::appstate::AppState;
use rtimer::config::Config;
use rtimer::state::SettingsField;
use rtimer::stats::Statistics;

fn fresh_app() -> AppState {
    AppState::create_app_state_from_args(
        Config::default(),
        Statistics::fresh("2024-01-01".to_string()),
    )
}

#[test]
fn cursor_cycles_through_all_eight_fields() {
    let mut app = fresh_app();
    let expect = [
        SettingsField::RestDuration,
        SettingsField::LongBreakDuration,
        SettingsField::SessionsBeforeLongBreak,
        SettingsField::Theme,
        SettingsField::SoundEnabled,
        SettingsField::AutoStartNext,
        SettingsField::ExtendedBreakReminder,
        SettingsField::WorkDuration,
    ];
    for f in expect {
        app.settings_next_field();
        assert_eq!(app.settings_selected_field, f);
    }
    app.settings_prev_field();
    assert_eq!(app.settings_selected_field, SettingsField::ExtendedBreakReminder);
}

#[test]
fn editing_seeds_whole_minutes_plain() {
    let mut app = fresh_app();
    app.settings_start_editing();
    assert!(app.settings_editing);
    assert_eq!(app.settings_input, "25");
}

#[test]
fn editing_seeds_fractional_minutes_with_two_decimals() {
    let mut app = fresh_app();
    app.work_duration_ms = 30_000;
    app.settings_start_editing();
    assert_eq!(app.settings_input, "0.50");
}

#[test]
fn editing_seeds_reminder_hours_with_one_decimal() {
    let mut app = fresh_app();
    app.settings_selected_field = SettingsField::ExtendedBreakReminder;
    app.settings_start_editing();
    assert_eq!(app.settings_input, "2");
    app.settings_cancel_editing();
    app.extended_break_reminder_ms = 9_000_000;
    app.settings_start_editing();
    assert_eq!(app.settings_input, "2.5");
}

#[test]
fn boolean_fields_do_not_open_an_editor() {
    let mut app = fresh_app();
    app.settings_selected_field = SettingsField::SoundEnabled;
    app.settings_start_editing();
    assert!(!app.settings_editing);
}

#[test]
fn out_of_range_work_duration_is_rejected_and_not_persisted() {
    let mut app = fresh_app();
    app.settings_start_editing();
    app.settings_input = "999".to_string();
    app.settings_apply_change();
    assert_eq!(app.work_duration_ms, 1_500_000);
    assert!(!app.config_save_requested);
    assert!(!app.settings_editing);
    assert_eq!(app.settings_input, "");
}

#[test]
fn unparsable_input_is_rejected() {
    let mut app = fresh_app();
    app.settings_start_editing();
    app.settings_input = "30x".to_string();
    app.settings_apply_change();
    assert_eq!(app.work_duration_ms, 1_500_000);
    assert!(!app.config_save_requested);
}

#[test]
fn valid_work_duration_commits_and_persists() {
    let mut app = fresh_app();
    app.settings_start_editing();
    app.settings_input = "30".to_string();
    app.settings_apply_change();
    assert_eq!(app.work_duration_ms, 1_800_000);
    assert!(app.take_config_save_request());
    assert!(!app.take_config_save_request());
}

#[test]
fn fractional_duration_commits_exactly() {
    let mut app = fresh_app();
    app.settings_selected_field = SettingsField::RestDuration;
    app.settings_start_editing();
    app.settings_input = "0.5".to_string();
    app.settings_apply_change();
    assert_eq!(app.rest_duration_ms, 30_000);
}

#[test]
fn rest_duration_range_is_stricter() {
    let mut app = fresh_app();
    app.settings_selected_field = SettingsField::RestDuration;
    app.settings_input = "61".to_string();
    app.settings_apply_change();
    assert_eq!(app.rest_duration_ms, 300_000);
    app.settings_input = "60".to_string();
    app.settings_apply_change();
    assert_eq!(app.rest_duration_ms, 3_600_000);
}

#[test]
fn session_count_takes_whole_numbers_in_range() {
    let mut app = fresh_app();
    app.settings_selected_field = SettingsField::SessionsBeforeLongBreak;
    app.settings_input = "11".to_string();
    app.settings_apply_change();
    assert_eq!(app.sessions_before_long_break, 4);
    app.settings_input = "0".to_string();
    app.settings_apply_change();
    assert_eq!(app.sessions_before_long_break, 4);
    app.settings_input = "2.5".to_string();
    app.settings_apply_change();
    assert_eq!(app.sessions_before_long_break, 4);
    app.settings_input = "10".to_string();
    app.settings_apply_change();
    assert_eq!(app.sessions_before_long_break, 10);
}

#[test]
fn reminder_accepts_half_to_eight_hours() {
    let mut app = fresh_app();
    app.settings_selected_field = SettingsField::ExtendedBreakReminder;
    app.settings_input = "0.4".to_string();
    app.settings_apply_change();
    assert_eq!(app.extended_break_reminder_ms, 7_200_000);
    app.settings_input = "0.5".to_string();
    app.settings_apply_change();
    assert_eq!(app.extended_break_reminder_ms, 1_800_000);
    app.settings_input = "8.1".to_string();
    app.settings_apply_change();
    assert_eq!(app.extended_break_reminder_ms, 1_800_000);
    app.settings_input = "8".to_string();
    app.settings_apply_change();
    assert_eq!(app.extended_break_reminder_ms, 28_800_000);
}

#[test]
fn negative_input_is_rejected() {
    let mut app = fresh_app();
    app.settings_input = "-5".to_string();
    app.settings_apply_change();
    assert_eq!(app.work_duration_ms, 1_500_000);
}

#[test]
fn toggles_flip_and_persist() {
    let mut app = fresh_app();
    app.settings_selected_field = SettingsField::SoundEnabled;
    app.settings_toggle_boolean();
    assert!(!app.sound_enabled);
    assert!(app.take_config_save_request());
    app.settings_selected_field = SettingsField::AutoStartNext;
    app.settings_toggle_boolean();
    assert!(!app.auto_start_next);
    app.settings_selected_field = SettingsField::WorkDuration;
    app.settings_toggle_boolean();
    assert_eq!(app.work_duration_ms, 1_500_000);
}

#[test]
fn theme_cycles_forward_and_back_with_wrap() {
    let mut app = fresh_app();
    app.settings_selected_field = SettingsField::Theme;
    app.settings_cycle_theme(true);
    assert_eq!(app.theme_name, "nord");
    app.settings_cycle_theme(false);
    assert_eq!(app.theme_name, "default");
    app.settings_cycle_theme(false);
    assert_eq!(app.theme_name, "solarized");
    app.settings_cycle_theme(true);
    assert_eq!(app.theme_name, "default");
}

#[test]
fn theme_does_not_cycle_from_other_fields() {
    let mut app = fresh_app();
    app.settings_cycle_theme(true);
    assert_eq!(app.theme_name, "default");
}

#[test]
fn default_config_is_valid() {
    let c = Config::default();
    assert!(c.is_valid());
    assert_eq!(c.work_duration_ms, 1_500_000);
    assert_eq!(c.sessions_before_long_break, 4);
    assert_eq!(c.theme, "default");
}

#[test]
fn invalid_theme_names_are_detected() {
    assert!(rtimer::config::is_valid_theme("gruvbox"));
    assert!(!rtimer::config::is_valid_theme("neon"));
}
