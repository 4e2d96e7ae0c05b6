use rtimer::appstate::AppState;
use rtimer::config::Config;
use rtimer::state::{NotesMode, Phase};
use rtimer::stats::Statistics;

fn fresh_app() -> AppState {
    AppState::create_app_state_from_args(
        Config::default(),
        Statistics::fresh("2024-01-01".to_string()),
    )
}

fn app_with_notes(contents: &[&str]) -> AppState {
    let mut app = fresh_app();
    for (i, c) in contents.iter().enumerate() {
        app.start_note();
        app.notes_input = c.to_string();
        app.save_note(format!("ts{}", i));
    }
    app
}

#[test]
fn saving_a_note_appends_and_selects_it() {
    let mut app = fresh_app();
    app.start_note();
    assert!(matches!(app.notes_mode, NotesMode::Adding));
    app.notes_input = "  remember the milk  ".to_string();
    app.save_note("2024-01-01T10:00:00+00:00".to_string());
    assert!(matches!(app.notes_mode, NotesMode::Viewing));
    assert_eq!(app.stats.notes.len(), 1);
    assert_eq!(app.stats.notes[0].content, "remember the milk");
    assert_eq!(app.stats.notes[0].timestamp, "2024-01-01T10:00:00+00:00");
    assert_eq!(app.stats.notes[0].phase, "work");
    assert_eq!(app.selected_note_index, Some(0));
    assert!(app.needs_stats_save);
    assert_eq!(app.notes_input, "");
}

#[test]
fn blank_note_is_discarded() {
    let mut app = fresh_app();
    app.start_note();
    app.notes_input = "   \t  ".to_string();
    app.save_note("ts".to_string());
    assert!(matches!(app.notes_mode, NotesMode::Viewing));
    assert_eq!(app.stats.notes.len(), 0);
    assert!(!app.needs_stats_save);
    assert_eq!(app.selected_note_index, None);
}

#[test]
fn note_records_current_phase_slug() {
    let mut app = fresh_app();
    app.phase = Phase::LongBreak;
    app.start_note();
    app.notes_input = "stretch".to_string();
    app.save_note("ts".to_string());
    assert_eq!(app.stats.notes[0].phase, "long_break");
}

#[test]
fn cancel_discards_the_buffer() {
    let mut app = fresh_app();
    app.start_note();
    app.notes_input = "half-typed".to_string();
    app.cancel_note();
    assert!(matches!(app.notes_mode, NotesMode::Viewing));
    assert_eq!(app.stats.notes.len(), 0);
    assert_eq!(app.notes_input, "");
}

#[test]
fn editing_overwrites_content_only() {
    let mut app = app_with_notes(&["first", "second"]);
    app.selected_note_index = Some(0);
    app.start_edit_note();
    assert!(matches!(app.notes_mode, NotesMode::Editing));
    assert_eq!(app.notes_input, "first");
    app.notes_input = " first, revised ".to_string();
    app.save_edited_note();
    assert_eq!(app.stats.notes[0].content, "first, revised");
    assert_eq!(app.stats.notes[0].timestamp, "ts0");
    assert_eq!(app.stats.notes[1].content, "second");
}

#[test]
fn blank_edit_keeps_the_old_content() {
    let mut app = app_with_notes(&["keep me"]);
    app.start_edit_note();
    app.notes_input = "   ".to_string();
    app.save_edited_note();
    assert_eq!(app.stats.notes[0].content, "keep me");
    assert!(matches!(app.notes_mode, NotesMode::Viewing));
}

#[test]
fn delete_requires_confirmation() {
    let mut app = app_with_notes(&["only"]);
    app.confirm_delete_note();
    assert!(matches!(app.notes_mode, NotesMode::ConfirmingDelete));
    app.cancel_delete();
    assert!(matches!(app.notes_mode, NotesMode::Viewing));
    assert_eq!(app.stats.notes.len(), 1);
}

#[test]
fn deleting_the_only_note_clears_selection() {
    let mut app = app_with_notes(&["only"]);
    app.confirm_delete_note();
    app.delete_selected_note();
    assert_eq!(app.stats.notes.len(), 0);
    assert_eq!(app.selected_note_index, None);
    assert!(matches!(app.notes_mode, NotesMode::Viewing));
}

#[test]
fn deleting_a_non_last_note_reselects_the_shifted_note() {
    let mut app = app_with_notes(&["a", "b", "c"]);
    app.selected_note_index = Some(1);
    app.confirm_delete_note();
    app.delete_selected_note();
    assert_eq!(app.stats.notes.len(), 2);
    // "c" shifted into slot 1 and stays selected.
    assert_eq!(app.selected_note_index, Some(1));
    assert_eq!(app.stats.notes[1].content, "c");
}

#[test]
fn deleting_the_last_note_selects_the_new_last() {
    let mut app = app_with_notes(&["a", "b", "c"]);
    assert_eq!(app.selected_note_index, Some(2));
    app.confirm_delete_note();
    app.delete_selected_note();
    assert_eq!(app.selected_note_index, Some(1));
}

#[test]
fn selection_clamps_at_both_ends() {
    let mut app = app_with_notes(&["a", "b"]);
    app.select_next_note();
    assert_eq!(app.selected_note_index, Some(1));
    app.select_prev_note();
    assert_eq!(app.selected_note_index, Some(0));
    app.select_prev_note();
    assert_eq!(app.selected_note_index, Some(0));
}

#[test]
fn open_notes_selects_most_recent() {
    let mut app = app_with_notes(&["a", "b"]);
    app.selected_note_index = Some(0);
    app.open_notes();
    assert_eq!(app.selected_note_index, Some(1));
    assert!(matches!(app.notes_mode, NotesMode::Viewing));
}

#[test]
fn scrolling_clamps_to_range() {
    let mut app = app_with_notes(&[
        "n01", "n02", "n03", "n04", "n05", "n06", "n07", "n08", "n09", "n10", "n11", "n12",
    ]);
    app.scroll_notes(5);
    assert_eq!(app.note_scroll_offset, 2);
    app.scroll_notes(5);
    assert_eq!(app.note_scroll_offset, 2);
    app.scroll_notes(-5);
    assert_eq!(app.note_scroll_offset, 0);
}
