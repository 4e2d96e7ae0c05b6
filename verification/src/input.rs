//! Keyboard dispatch: routes each key to the sub-state-machine that
//! owns it. Text-entry modes (note add/edit, settings edit) and the
//! delete confirmation take priority over view-level navigation; the
//! minimized flag blocks everything except un-minimizing and quitting.
//! The returned flag asks the control loop to persist and exit.

use vstd::prelude::*;
use crate::appstate::{AppState, AppStateV};
use crate::state::{Key, NotesMode, Screen, SettingsField};
use crate::text::{pop_char, push_char};

verus! {

/// Keys seen while a note is being typed (adding or editing).
pub open spec fn notes_entry_key_spec(s: AppStateV, key: Key, ts: Seq<char>) -> AppStateV {
    match key {
        Key::Char(c) => AppStateV { notes_input: s.notes_input.push(c), ..s },
        Key::Backspace => if s.notes_input.len() == 0 {
            s
        } else {
            AppStateV { notes_input: s.notes_input.drop_last(), ..s }
        },
        Key::Enter => if s.notes_mode == NotesMode::Editing {
            s.save_edited_note_spec()
        } else {
            s.save_note_spec(ts)
        },
        Key::Esc => s.cancel_note_spec(),
        _ => s,
    }
}

/// Keys seen while a delete awaits confirmation.
pub open spec fn confirm_delete_key_spec(s: AppStateV, key: Key) -> AppStateV {
    match key {
        Key::Char(c) => if c == 'y' || c == 'Y' {
            s.delete_selected_note_spec()
        } else if c == 'n' || c == 'N' {
            s.cancel_delete_spec()
        } else {
            s
        },
        Key::Esc => s.cancel_delete_spec(),
        _ => s,
    }
}

/// Keys seen on the notes screen in viewing mode.
pub open spec fn notes_view_key_spec(s: AppStateV, key: Key) -> AppStateV {
    match key {
        Key::Esc => AppStateV {
            current_view: Screen::Timer,
            notes_mode: NotesMode::Viewing,
            ..s
        },
        Key::Char(c) => if c == 'q' || c == 't' {
            AppStateV { current_view: Screen::Timer, notes_mode: NotesMode::Viewing, ..s }
        } else if c == 'a' || c == 'n' {
            s.start_note_spec()
        } else if c == 'e' {
            s.start_edit_note_spec()
        } else if c == 'd' {
            s.confirm_delete_note_spec()
        } else if c == 'j' {
            s.select_next_note_spec()
        } else if c == 'k' {
            s.select_prev_note_spec()
        } else {
            s
        },
        Key::Down => s.select_next_note_spec(),
        Key::Up => s.select_prev_note_spec(),
        Key::PageUp => s.scroll_notes_spec(-5),
        Key::PageDown => s.scroll_notes_spec(5),
        _ => s,
    }
}

/// Keys seen while a settings field is being edited.
pub open spec fn settings_edit_key_spec(s: AppStateV, key: Key) -> AppStateV {
    match key {
        Key::Char(c) => AppStateV { settings_input: s.settings_input.push(c), ..s },
        Key::Backspace => if s.settings_input.len() == 0 {
            s
        } else {
            AppStateV { settings_input: s.settings_input.drop_last(), ..s }
        },
        Key::Enter => s.settings_apply_change_spec(),
        Key::Esc => s.settings_cancel_editing_spec(),
        _ => s,
    }
}

/// Keys seen on the settings screen outside edit mode.
pub open spec fn settings_nav_key_spec(s: AppStateV, key: Key) -> AppStateV {
    match key {
        Key::Esc => AppStateV { current_view: Screen::Timer, ..s },
        Key::Char(c) => if c == 'q' || c == 'c' {
            AppStateV { current_view: Screen::Timer, ..s }
        } else if c == 'j' {
            AppStateV { settings_selected_field: crate::settings::next_field(s.settings_selected_field), ..s }
        } else if c == 'k' {
            AppStateV { settings_selected_field: crate::settings::prev_field(s.settings_selected_field), ..s }
        } else if c == 'e' {
            s.settings_start_editing_spec()
        } else if c == ' ' {
            s.settings_toggle_boolean_spec()
        } else if c == 'h' {
            if s.settings_selected_field == SettingsField::Theme {
                s.settings_cycle_theme_spec(false)
            } else {
                s
            }
        } else if c == 'l' {
            if s.settings_selected_field == SettingsField::Theme {
                s.settings_cycle_theme_spec(true)
            } else {
                s
            }
        } else {
            s
        },
        Key::Down => AppStateV {
            settings_selected_field: crate::settings::next_field(s.settings_selected_field),
            ..s
        },
        Key::Up => AppStateV {
            settings_selected_field: crate::settings::prev_field(s.settings_selected_field),
            ..s
        },
        Key::Enter => s.settings_start_editing_spec(),
        Key::Left => if s.settings_selected_field == SettingsField::Theme {
            s.settings_cycle_theme_spec(false)
        } else {
            s
        },
        Key::Right => if s.settings_selected_field == SettingsField::Theme {
            s.settings_cycle_theme_spec(true)
        } else {
            s
        },
        _ => s,
    }
}

/// Whether a key quits outright in normal routing.
pub open spec fn quit_key_spec(key: Key, ctrl: bool) -> bool {
    match key {
        Key::Char(c) => c == 'q' || (c == 'c' && ctrl),
        Key::Esc => true,
        _ => false,
    }
}

/// Keys seen everywhere else: timer controls and view navigation.
/// While minimized, only the minimize toggle (and quitting) acts.
pub open spec fn normal_key_spec(s: AppStateV, key: Key, ts: Seq<char>, weekday: u8) -> AppStateV {
    match key {
        Key::Char(c) => if c == 'm' || c == 'M' {
            AppStateV { minimized: !s.minimized, ..s }
        } else if s.minimized {
            s
        } else if c == ' ' {
            AppStateV { paused: !s.paused, ..s }
        } else if c == 'r' {
            AppStateV { time_remaining_ms: s.total_duration_ms(), paused: false, ..s }
        } else if c == 'n' {
            s.next_phase_spec(ts, weekday)
        } else if c == 'd' {
            AppStateV { current_view: Screen::Settings, ..s }
        } else if c == 't' {
            s.open_notes_spec()
        } else if c == 'h' || c == '?' {
            AppStateV {
                current_view: if s.current_view == Screen::Help {
                    Screen::Timer
                } else {
                    Screen::Help
                },
                ..s
            }
        } else if c == 's' {
            AppStateV {
                current_view: if s.current_view == Screen::Timer {
                    Screen::StatsSummary
                } else {
                    Screen::Timer
                },
                ..s
            }
        } else if c == 'e' {
            if s.current_view == Screen::StatsSummary || s.current_view == Screen::StatsDetailed
                || s.current_view == Screen::StatsHistory {
                AppStateV { export_requested: true, ..s }
            } else {
                s
            }
        } else {
            s
        },
        Key::Tab => if s.minimized {
            s
        } else {
            AppStateV {
                current_view: match s.current_view {
                    Screen::StatsSummary => Screen::StatsDetailed,
                    Screen::StatsDetailed => Screen::StatsHistory,
                    Screen::StatsHistory => Screen::StatsSummary,
                    _ => s.current_view,
                },
                ..s
            }
        },
        _ => s,
    }
}

/// Where a key is routed, given the state: text entry first, then the
/// delete confirmation, then the notes screen, then settings editing,
/// then the settings screen, and last the normal bindings.
pub open spec fn handle_key_spec(
    s: AppStateV,
    key: Key,
    ctrl: bool,
    ts: Seq<char>,
    weekday: u8,
) -> (AppStateV, bool) {
    if s.notes_mode == NotesMode::Adding || s.notes_mode == NotesMode::Editing {
        (notes_entry_key_spec(s, key, ts), false)
    } else if s.notes_mode == NotesMode::ConfirmingDelete {
        (confirm_delete_key_spec(s, key), false)
    } else if s.current_view == Screen::Notes {
        (notes_view_key_spec(s, key), false)
    } else if s.settings_editing {
        (settings_edit_key_spec(s, key), false)
    } else if s.current_view == Screen::Settings {
        (settings_nav_key_spec(s, key), false)
    } else if quit_key_spec(key, ctrl) {
        (s, true)
    } else {
        (normal_key_spec(s, key, ts, weekday), false)
    }
}

impl AppState {
    fn notes_entry_key(&mut self, key: Key, ts: String)
        requires
            old(self)@.wf(),
        ensures
            final(self)@ == notes_entry_key_spec(old(self)@, key, ts@),
            final(self)@.wf(),
    {
        match key {
            Key::Char(c) => {
                push_char(&mut self.notes_input, c);
            },
            Key::Backspace => {
                pop_char(&mut self.notes_input);
            },
            Key::Enter => {
                if matches!(self.notes_mode, NotesMode::Editing) {
                    self.save_edited_note();
                } else {
                    self.save_note(ts);
                }
            },
            Key::Esc => {
                self.cancel_note();
            },
            _ => {},
        }
    }

    fn confirm_delete_key(&mut self, key: Key)
        requires
            old(self)@.wf(),
        ensures
            final(self)@ == confirm_delete_key_spec(old(self)@, key),
            final(self)@.wf(),
    {
        match key {
            Key::Char(c) => {
                if c == 'y' || c == 'Y' {
                    self.delete_selected_note();
                } else if c == 'n' || c == 'N' {
                    self.cancel_delete();
                }
            },
            Key::Esc => {
                self.cancel_delete();
            },
            _ => {},
        }
    }

    fn notes_view_key(&mut self, key: Key)
        requires
            old(self)@.wf(),
        ensures
            final(self)@ == notes_view_key_spec(old(self)@, key),
            final(self)@.wf(),
    {
        match key {
            Key::Esc => {
                self.current_view = Screen::Timer;
                self.notes_mode = NotesMode::Viewing;
            },
            Key::Char(c) => {
                if c == 'q' || c == 't' {
                    self.current_view = Screen::Timer;
                    self.notes_mode = NotesMode::Viewing;
                } else if c == 'a' || c == 'n' {
                    self.start_note();
                } else if c == 'e' {
                    self.start_edit_note();
                } else if c == 'd' {
                    self.confirm_delete_note();
                } else if c == 'j' {
                    self.select_next_note();
                } else if c == 'k' {
                    self.select_prev_note();
                }
            },
            Key::Down => {
                self.select_next_note();
            },
            Key::Up => {
                self.select_prev_note();
            },
            Key::PageUp => {
                self.scroll_notes(-5);
            },
            Key::PageDown => {
                self.scroll_notes(5);
            },
            _ => {},
        }
    }

    fn settings_edit_key(&mut self, key: Key)
        requires
            old(self)@.wf(),
        ensures
            final(self)@ == settings_edit_key_spec(old(self)@, key),
            final(self)@.wf(),
    {
        match key {
            Key::Char(c) => {
                push_char(&mut self.settings_input, c);
            },
            Key::Backspace => {
                pop_char(&mut self.settings_input);
            },
            Key::Enter => {
                self.settings_apply_change();
            },
            Key::Esc => {
                self.settings_cancel_editing();
            },
            _ => {},
        }
    }

    #[verifier::rlimit(100)]
    fn settings_nav_key(&mut self, key: Key)
        requires
            old(self)@.wf(),
        ensures
            final(self)@ == settings_nav_key_spec(old(self)@, key),
            final(self)@.wf(),
    {
        match key {
            Key::Esc => {
                self.current_view = Screen::Timer;
            },
            Key::Char(c) => {
                if c == 'q' || c == 'c' {
                    self.current_view = Screen::Timer;
                } else if c == 'j' {
                    self.settings_next_field();
                } else if c == 'k' {
                    self.settings_prev_field();
                } else if c == 'e' {
                    self.settings_start_editing();
                } else if c == ' ' {
                    self.settings_toggle_boolean();
                } else if c == 'h' {
                    if matches!(self.settings_selected_field, SettingsField::Theme) {
                        self.settings_cycle_theme(false);
                    }
                } else if c == 'l' {
                    if matches!(self.settings_selected_field, SettingsField::Theme) {
                        self.settings_cycle_theme(true);
                    }
                }
            },
            Key::Down => {
                self.settings_next_field();
            },
            Key::Up => {
                self.settings_prev_field();
            },
            Key::Enter => {
                self.settings_start_editing();
            },
            Key::Left => {
                if matches!(self.settings_selected_field, SettingsField::Theme) {
                    self.settings_cycle_theme(false);
                }
            },
            Key::Right => {
                if matches!(self.settings_selected_field, SettingsField::Theme) {
                    self.settings_cycle_theme(true);
                }
            },
            _ => {},
        }
    }

    fn normal_key(&mut self, key: Key, ts: String, weekday: u8)
        requires
            old(self)@.wf(),
            weekday < 7,
        ensures
            final(self)@ == normal_key_spec(old(self)@, key, ts@, weekday),
            final(self)@.wf(),
    {
        match key {
            Key::Char(c) => {
                if c == 'm' || c == 'M' {
                    self.toggle_minimize();
                } else if self.minimized {
                } else if c == ' ' {
                    self.toggle_pause();
                } else if c == 'r' {
                    self.reset_timer();
                } else if c == 'n' {
                    self.next_phase(ts, weekday);
                } else if c == 'd' {
                    self.open_settings();
                } else if c == 't' {
                    self.open_notes();
                } else if c == 'h' || c == '?' {
                    self.current_view = if matches!(self.current_view, Screen::Help) {
                        Screen::Timer
                    } else {
                        Screen::Help
                    };
                } else if c == 's' {
                    self.current_view = if matches!(self.current_view, Screen::Timer) {
                        Screen::StatsSummary
                    } else {
                        Screen::Timer
                    };
                } else if c == 'e' {
                    if matches!(
                        self.current_view,
                        Screen::StatsSummary | Screen::StatsDetailed | Screen::StatsHistory,
                    ) {
                        self.export_requested = true;
                    }
                }
            },
            Key::Tab => {
                if !self.minimized {
                    self.current_view = match self.current_view {
                        Screen::StatsSummary => Screen::StatsDetailed,
                        Screen::StatsDetailed => Screen::StatsHistory,
                        Screen::StatsHistory => Screen::StatsSummary,
                        _ => self.current_view,
                    };
                }
            },
            _ => {},
        }
    }

    /// Routes one key press, already split into the key itself, the
    /// control modifier, a timestamp for anything recorded, and the
    /// weekday index. Returns true when the program should persist
    /// everything and exit.
    pub fn handle_key_event(&mut self, key: Key, ctrl: bool, ts: String, weekday: u8) -> (quit:
        bool)
        requires
            old(self)@.wf(),
            weekday < 7,
        ensures
            final(self)@ == handle_key_spec(old(self)@, key, ctrl, ts@, weekday).0,
            quit == handle_key_spec(old(self)@, key, ctrl, ts@, weekday).1,
            final(self)@.wf(),
    {
        if matches!(self.notes_mode, NotesMode::Adding | NotesMode::Editing) {
            self.notes_entry_key(key, ts);
            return false;
        }
        if matches!(self.notes_mode, NotesMode::ConfirmingDelete) {
            self.confirm_delete_key(key);
            return false;
        }
        if matches!(self.current_view, Screen::Notes) {
            self.notes_view_key(key);
            return false;
        }
        if self.settings_editing {
            self.settings_edit_key(key);
            return false;
        }
        if matches!(self.current_view, Screen::Settings) {
            self.settings_nav_key(key);
            return false;
        }
        let quit = match key {
            Key::Char(c) => c == 'q' || (c == 'c' && ctrl),
            Key::Esc => true,
            _ => false,
        };
        if quit {
            return true;
        }
        self.normal_key(key, ts, weekday);
        false
    }
}

} // verus!
