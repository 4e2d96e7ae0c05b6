use rtimer::appstate::AppState;
use rtimer::config::Config;
use rtimer::state::{Key, NotesMode, Phase, Screen, SettingsField};
use rtimer::stats::Statistics;

fn fresh_app() -> AppState {
    AppState::create_app_state_from_args(
        Config::default(),
        Statistics::fresh("2024-01-01".to_string()),
    )
}

fn key(app: &mut AppState, k: Key) -> bool {
    app.handle_key_event(k, false, "ts".to_string(), 0)
}

#[test]
fn q_and_esc_quit_from_the_timer_view() {
    let mut app = fresh_app();
    assert!(key(&mut app, Key::Char('q')));
    assert!(key(&mut app, Key::Esc));
    assert!(app.handle_key_event(Key::Char('c'), true, "ts".to_string(), 0));
    assert!(!app.handle_key_event(Key::Char('c'), false, "ts".to_string(), 0));
}

#[test]
fn space_toggles_pause_and_r_resets() {
    let mut app = fresh_app();
    assert!(!key(&mut app, Key::Char(' ')));
    assert!(app.paused);
    key(&mut app, Key::Char(' '));
    assert!(!app.paused);
    app.time_remaining_ms = 99;
    key(&mut app, Key::Char('r'));
    assert_eq!(app.time_remaining_ms, 1_500_000);
}

#[test]
fn n_skips_to_the_next_phase() {
    let mut app = fresh_app();
    key(&mut app, Key::Char('n'));
    assert!(matches!(app.phase, Phase::ShortBreak));
    assert_eq!(app.stats.session_history.len(), 1);
}

#[test]
fn view_navigation_keys() {
    let mut app = fresh_app();
    key(&mut app, Key::Char('h'));
    assert!(matches!(app.current_view, Screen::Help));
    key(&mut app, Key::Char('h'));
    assert!(matches!(app.current_view, Screen::Timer));
    key(&mut app, Key::Char('s'));
    assert!(matches!(app.current_view, Screen::StatsSummary));
    key(&mut app, Key::Tab);
    assert!(matches!(app.current_view, Screen::StatsDetailed));
    key(&mut app, Key::Tab);
    assert!(matches!(app.current_view, Screen::StatsHistory));
    key(&mut app, Key::Tab);
    assert!(matches!(app.current_view, Screen::StatsSummary));
    key(&mut app, Key::Char('s'));
    assert!(matches!(app.current_view, Screen::Timer));
    key(&mut app, Key::Char('d'));
    assert!(matches!(app.current_view, Screen::Settings));
}

#[test]
fn minimize_blocks_everything_but_unminimize_and_quit() {
    let mut app = fresh_app();
    key(&mut app, Key::Char('m'));
    assert!(app.minimized);
    key(&mut app, Key::Char(' '));
    assert!(!app.paused);
    key(&mut app, Key::Char('s'));
    assert!(matches!(app.current_view, Screen::Timer));
    assert!(key(&mut app, Key::Char('q')));
    key(&mut app, Key::Char('M'));
    assert!(!app.minimized);
}

#[test]
fn typing_a_note_through_the_dispatcher() {
    let mut app = fresh_app();
    key(&mut app, Key::Char('t'));
    assert!(matches!(app.current_view, Screen::Notes));
    key(&mut app, Key::Char('a'));
    assert!(matches!(app.notes_mode, NotesMode::Adding));
    for c in "hii".chars() {
        key(&mut app, Key::Char(c));
    }
    key(&mut app, Key::Backspace);
    assert_eq!(app.notes_input, "hi");
    // While typing, 'q' is text, not quit.
    assert!(!key(&mut app, Key::Char('q')));
    key(&mut app, Key::Backspace);
    key(&mut app, Key::Enter);
    assert_eq!(app.stats.notes.len(), 1);
    assert_eq!(app.stats.notes[0].content, "hi");
}

#[test]
fn delete_confirmation_accepts_only_yes_no_escape() {
    let mut app = fresh_app();
    key(&mut app, Key::Char('t'));
    key(&mut app, Key::Char('a'));
    key(&mut app, Key::Char('x'));
    key(&mut app, Key::Enter);
    key(&mut app, Key::Char('d'));
    assert!(matches!(app.notes_mode, NotesMode::ConfirmingDelete));
    key(&mut app, Key::Char('z'));
    assert!(matches!(app.notes_mode, NotesMode::ConfirmingDelete));
    key(&mut app, Key::Char('n'));
    assert!(matches!(app.notes_mode, NotesMode::Viewing));
    assert_eq!(app.stats.notes.len(), 1);
    key(&mut app, Key::Char('d'));
    key(&mut app, Key::Char('y'));
    assert_eq!(app.stats.notes.len(), 0);
}

#[test]
fn leaving_notes_resets_mode_and_returns_to_timer() {
    let mut app = fresh_app();
    key(&mut app, Key::Char('t'));
    key(&mut app, Key::Esc);
    assert!(matches!(app.current_view, Screen::Timer));
    assert!(matches!(app.notes_mode, NotesMode::Viewing));
}

#[test]
fn settings_editing_captures_text_until_commit() {
    let mut app = fresh_app();
    key(&mut app, Key::Char('d'));
    key(&mut app, Key::Enter);
    assert!(app.settings_editing);
    assert_eq!(app.settings_input, "25");
    key(&mut app, Key::Backspace);
    key(&mut app, Key::Backspace);
    for c in "40".chars() {
        key(&mut app, Key::Char(c));
    }
    key(&mut app, Key::Enter);
    assert!(!app.settings_editing);
    assert_eq!(app.work_duration_ms, 2_400_000);
}

#[test]
fn settings_navigation_and_theme_keys() {
    let mut app = fresh_app();
    key(&mut app, Key::Char('d'));
    key(&mut app, Key::Down);
    assert_eq!(app.settings_selected_field, SettingsField::RestDuration);
    key(&mut app, Key::Up);
    assert_eq!(app.settings_selected_field, SettingsField::WorkDuration);
    app.settings_selected_field = SettingsField::Theme;
    key(&mut app, Key::Right);
    assert_eq!(app.theme_name, "nord");
    key(&mut app, Key::Left);
    assert_eq!(app.theme_name, "default");
    key(&mut app, Key::Esc);
    assert!(matches!(app.current_view, Screen::Timer));
}

#[test]
fn escape_in_settings_editing_cancels_only_the_edit() {
    let mut app = fresh_app();
    key(&mut app, Key::Char('d'));
    key(&mut app, Key::Enter);
    key(&mut app, Key::Char('9'));
    assert!(!key(&mut app, Key::Esc));
    assert!(!app.settings_editing);
    assert!(matches!(app.current_view, Screen::Settings));
    assert_eq!(app.work_duration_ms, 1_500_000);
}

#[test]
fn clock_stamped_key_press_works() {
    let mut app = fresh_app();
    let quit = app.handle_key_event_now(Key::Char(' '), false);
    assert!(!quit);
    assert!(app.paused);
}

#[test]
fn phase_slug_round_trip() {
    assert!(matches!(Phase::from_slug("short_break"), Phase::ShortBreak));
    assert!(matches!(Phase::from_slug("long_break"), Phase::LongBreak));
    assert!(matches!(Phase::from_slug("work"), Phase::Work));
    assert!(matches!(Phase::from_slug("anything"), Phase::Work));
    assert_eq!(Phase::ShortBreak.slug(), "short_break");
    assert_eq!(Phase::LongBreak.label(), "Long Break");
}
