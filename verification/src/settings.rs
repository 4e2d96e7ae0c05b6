//! The settings editor: a field cursor over eight fields, boolean
//! toggles applied on the spot, a theme cycled in a fixed order, and
//! five numeric fields edited through a text buffer whose commit is
//! validated against the field's range — out-of-range or unparsable
//! input is silently discarded and the prior value kept.

use vstd::prelude::*;
use crate::appstate::{AppState, AppStateV};
use crate::config::{theme_index, theme_index_spec, theme_name_at, theme_name_spec, THEME_COUNT};
use crate::numeric::{
    format_hours, format_minutes, format_u64, hours_text, minutes_text, parse_decimal,
    parse_decimal_spec, parse_u32, parse_u32_spec, dec_digits,
};
use crate::state::SettingsField;

verus! {


/// A value `num / den` at most `cap`, scaled to `num * unit / den`,
/// stays between 0 and `cap * unit`.
proof fn lemma_scaled_range(num: int, den: int, cap: int, unit: int)
    requires
        1 <= den,
        0 <= num,
        num <= cap * den,
        0 <= cap,
        1 <= unit,
    ensures
        0 <= num * unit / den <= cap * unit,
{
    assert(num * unit <= den * (cap * unit) && 0 <= num * unit) by (nonlinear_arith)
        requires
            num <= cap * den,
            unit >= 1,
            den >= 1,
            cap >= 0,
            num >= 0,
    ;
    vstd::arithmetic::div_mod::lemma_div_is_ordered(num * unit, den * (cap * unit), den);
    vstd::arithmetic::div_mod::lemma_div_multiples_vanish(cap * unit, den);
    vstd::arithmetic::div_mod::lemma_div_is_ordered(0, num * unit, den);
}

/// The field after `f` in cursor order (wrapping).
pub open spec fn next_field(f: SettingsField) -> SettingsField {
    match f {
        SettingsField::WorkDuration => SettingsField::RestDuration,
        SettingsField::RestDuration => SettingsField::LongBreakDuration,
        SettingsField::LongBreakDuration => SettingsField::SessionsBeforeLongBreak,
        SettingsField::SessionsBeforeLongBreak => SettingsField::Theme,
        SettingsField::Theme => SettingsField::SoundEnabled,
        SettingsField::SoundEnabled => SettingsField::AutoStartNext,
        SettingsField::AutoStartNext => SettingsField::ExtendedBreakReminder,
        SettingsField::ExtendedBreakReminder => SettingsField::WorkDuration,
    }
}

/// The field before `f` in cursor order (wrapping).
pub open spec fn prev_field(f: SettingsField) -> SettingsField {
    match f {
        SettingsField::WorkDuration => SettingsField::ExtendedBreakReminder,
        SettingsField::RestDuration => SettingsField::WorkDuration,
        SettingsField::LongBreakDuration => SettingsField::RestDuration,
        SettingsField::SessionsBeforeLongBreak => SettingsField::LongBreakDuration,
        SettingsField::Theme => SettingsField::SessionsBeforeLongBreak,
        SettingsField::SoundEnabled => SettingsField::Theme,
        SettingsField::AutoStartNext => SettingsField::SoundEnabled,
        SettingsField::ExtendedBreakReminder => SettingsField::AutoStartNext,
    }
}

impl AppStateV {
    /// Entering edit mode: the buffer is seeded with the field's
    /// current value (durations as minutes, the reminder as hours,
    /// whole values plain); the three non-numeric fields do not edit.
    pub open spec fn settings_start_editing_spec(self) -> AppStateV {
        match self.settings_selected_field {
            SettingsField::Theme => self,
            SettingsField::SoundEnabled => self,
            SettingsField::AutoStartNext => self,
            SettingsField::WorkDuration => AppStateV {
                settings_input: minutes_text(self.work_duration_ms),
                settings_editing: true,
                ..self
            },
            SettingsField::RestDuration => AppStateV {
                settings_input: minutes_text(self.rest_duration_ms),
                settings_editing: true,
                ..self
            },
            SettingsField::LongBreakDuration => AppStateV {
                settings_input: minutes_text(self.long_break_duration_ms),
                settings_editing: true,
                ..self
            },
            SettingsField::SessionsBeforeLongBreak => AppStateV {
                settings_input: dec_digits(self.sessions_before_long_break as int),
                settings_editing: true,
                ..self
            },
            SettingsField::ExtendedBreakReminder => AppStateV {
                settings_input: hours_text(self.extended_break_reminder_ms),
                settings_editing: true,
                ..self
            },
        }
    }

    /// Leaving edit mode with the buffer discarded.
    pub open spec fn settings_cancel_editing_spec(self) -> AppStateV {
        AppStateV { settings_editing: false, settings_input: Seq::<char>::empty(), ..self }
    }

    /// Committing the buffer: the value applies, and a configuration
    /// write is requested, only when the buffer parses and lies in the
    /// field's range — work (0, 240] minutes, rest (0, 60], long break
    /// (0, 120], sessions [1, 10] whole, reminder [0.5, 8] hours.
    /// Whatever happened, editing ends and the buffer clears.
    pub open spec fn settings_apply_change_spec(self) -> AppStateV {
        let done = self.settings_cancel_editing_spec();
        match self.settings_selected_field {
            SettingsField::WorkDuration => match parse_decimal_spec(self.settings_input) {
                Some((neg, num, den)) => if !neg && num > 0 && num <= 240 * den {
                    AppStateV {
                        work_duration_ms: (num * 60_000 / den) as u64,
                        config_save_requested: true,
                        ..done
                    }
                } else {
                    done
                },
                None => done,
            },
            SettingsField::RestDuration => match parse_decimal_spec(self.settings_input) {
                Some((neg, num, den)) => if !neg && num > 0 && num <= 60 * den {
                    AppStateV {
                        rest_duration_ms: (num * 60_000 / den) as u64,
                        config_save_requested: true,
                        ..done
                    }
                } else {
                    done
                },
                None => done,
            },
            SettingsField::LongBreakDuration => match parse_decimal_spec(self.settings_input) {
                Some((neg, num, den)) => if !neg && num > 0 && num <= 120 * den {
                    AppStateV {
                        long_break_duration_ms: (num * 60_000 / den) as u64,
                        config_save_requested: true,
                        ..done
                    }
                } else {
                    done
                },
                None => done,
            },
            SettingsField::SessionsBeforeLongBreak => match parse_u32_spec(self.settings_input) {
                Some(v) => if 1 <= v <= 10 {
                    AppStateV {
                        sessions_before_long_break: v,
                        config_save_requested: true,
                        ..done
                    }
                } else {
                    done
                },
                None => done,
            },
            SettingsField::ExtendedBreakReminder => match parse_decimal_spec(
                self.settings_input,
            ) {
                Some((neg, num, den)) => if !neg && 2 * num >= den && num <= 8 * den {
                    AppStateV {
                        extended_break_reminder_ms: (num * 3_600_000 / den) as u64,
                        config_save_requested: true,
                        ..done
                    }
                } else {
                    done
                },
                None => done,
            },
            _ => done,
        }
    }

    /// Toggling a boolean field on the spot, with a configuration
    /// write requested; other fields do nothing.
    pub open spec fn settings_toggle_boolean_spec(self) -> AppStateV {
        match self.settings_selected_field {
            SettingsField::SoundEnabled => AppStateV {
                sound_enabled: !self.sound_enabled,
                config_save_requested: true,
                ..self
            },
            SettingsField::AutoStartNext => AppStateV {
                auto_start_next: !self.auto_start_next,
                config_save_requested: true,
                ..self
            },
            _ => self,
        }
    }

    /// Cycling the theme one step through the fixed list, wrapping at
    /// both ends, with a configuration write requested; does nothing
    /// unless the theme field is selected. An unrecognised stored name
    /// cycles as if it were the first entry.
    pub open spec fn settings_cycle_theme_spec(self, forward: bool) -> AppStateV {
        if self.settings_selected_field == SettingsField::Theme {
            let idx = theme_index_spec(self.theme_name);
            let new_idx: u32 = if forward {
                if idx + 1 < THEME_COUNT {
                    (idx + 1) as u32
                } else {
                    0
                }
            } else {
                if idx == 0 {
                    (THEME_COUNT - 1) as u32
                } else {
                    (idx - 1) as u32
                }
            };
            AppStateV {
                theme_name: theme_name_spec(new_idx),
                config_save_requested: true,
                ..self
            }
        } else {
            self
        }
    }
}

impl AppState {
    /// Moves the cursor to the next field.
    pub fn settings_next_field(&mut self)
        ensures
            final(self)@ == (AppStateV {
                settings_selected_field: next_field(old(self)@.settings_selected_field),
                ..old(self)@
            }),
    {
        self.settings_selected_field = match self.settings_selected_field {
            SettingsField::WorkDuration => SettingsField::RestDuration,
            SettingsField::RestDuration => SettingsField::LongBreakDuration,
            SettingsField::LongBreakDuration => SettingsField::SessionsBeforeLongBreak,
            SettingsField::SessionsBeforeLongBreak => SettingsField::Theme,
            SettingsField::Theme => SettingsField::SoundEnabled,
            SettingsField::SoundEnabled => SettingsField::AutoStartNext,
            SettingsField::AutoStartNext => SettingsField::ExtendedBreakReminder,
            SettingsField::ExtendedBreakReminder => SettingsField::WorkDuration,
        };
    }

    /// Moves the cursor to the previous field.
    pub fn settings_prev_field(&mut self)
        ensures
            final(self)@ == (AppStateV {
                settings_selected_field: prev_field(old(self)@.settings_selected_field),
                ..old(self)@
            }),
    {
        self.settings_selected_field = match self.settings_selected_field {
            SettingsField::WorkDuration => SettingsField::ExtendedBreakReminder,
            SettingsField::RestDuration => SettingsField::WorkDuration,
            SettingsField::LongBreakDuration => SettingsField::RestDuration,
            SettingsField::SessionsBeforeLongBreak => SettingsField::LongBreakDuration,
            SettingsField::Theme => SettingsField::SessionsBeforeLongBreak,
            SettingsField::SoundEnabled => SettingsField::Theme,
            SettingsField::AutoStartNext => SettingsField::SoundEnabled,
            SettingsField::ExtendedBreakReminder => SettingsField::AutoStartNext,
        };
    }

    /// Enters edit mode on the selected numeric field.
    pub fn settings_start_editing(&mut self)
        ensures
            final(self)@ == old(self)@.settings_start_editing_spec(),
    {
        match self.settings_selected_field {
            SettingsField::Theme | SettingsField::SoundEnabled | SettingsField::AutoStartNext => {
                return ;
            },
            SettingsField::WorkDuration => {
                self.settings_input = format_minutes(self.work_duration_ms);
            },
            SettingsField::RestDuration => {
                self.settings_input = format_minutes(self.rest_duration_ms);
            },
            SettingsField::LongBreakDuration => {
                self.settings_input = format_minutes(self.long_break_duration_ms);
            },
            SettingsField::SessionsBeforeLongBreak => {
                self.settings_input = format_u64(self.sessions_before_long_break as u64);
            },
            SettingsField::ExtendedBreakReminder => {
                self.settings_input = format_hours(self.extended_break_reminder_ms);
            },
        }
        self.settings_editing = true;
    }

    /// Leaves edit mode, discarding the buffer.
    pub fn settings_cancel_editing(&mut self)
        ensures
            final(self)@ == old(self)@.settings_cancel_editing_spec(),
    {
        self.settings_editing = false;
        self.settings_input = String::new();
    }

    /// Commits the edit buffer to the selected field.
    #[verifier::rlimit(100)]
    pub fn settings_apply_change(&mut self)
        ensures
            final(self)@ == old(self)@.settings_apply_change_spec(),
    {
        match self.settings_selected_field {
            SettingsField::WorkDuration => {
                match parse_decimal(self.settings_input.as_str()) {
                    Some((neg, num, den)) => {
                        if !neg && num > 0 && (num as u128) <= 240 * (den as u128) {
                            proof {
                                lemma_scaled_range(num as int, den as int, 240, 60_000);
                            }
                            self.work_duration_ms = ((num as u128) * 60_000 / (den as u128))
                                as u64;
                            self.config_save_requested = true;
                        }
                    },
                    None => {},
                }
            },
            SettingsField::RestDuration => {
                match parse_decimal(self.settings_input.as_str()) {
                    Some((neg, num, den)) => {
                        if !neg && num > 0 && (num as u128) <= 60 * (den as u128) {
                            proof {
                                lemma_scaled_range(num as int, den as int, 60, 60_000);
                            }
                            self.rest_duration_ms = ((num as u128) * 60_000 / (den as u128))
                                as u64;
                            self.config_save_requested = true;
                        }
                    },
                    None => {},
                }
            },
            SettingsField::LongBreakDuration => {
                match parse_decimal(self.settings_input.as_str()) {
                    Some((neg, num, den)) => {
                        if !neg && num > 0 && (num as u128) <= 120 * (den as u128) {
                            proof {
                                lemma_scaled_range(num as int, den as int, 120, 60_000);
                            }
                            self.long_break_duration_ms = ((num as u128) * 60_000 / (den
                                as u128)) as u64;
                            self.config_save_requested = true;
                        }
                    },
                    None => {},
                }
            },
            SettingsField::SessionsBeforeLongBreak => {
                match parse_u32(self.settings_input.as_str()) {
                    Some(v) => {
                        if 1 <= v && v <= 10 {
                            self.sessions_before_long_break = v;
                            self.config_save_requested = true;
                        }
                    },
                    None => {},
                }
            },
            SettingsField::ExtendedBreakReminder => {
                match parse_decimal(self.settings_input.as_str()) {
                    Some((neg, num, den)) => {
                        if !neg && 2 * (num as u128) >= den as u128 && (num as u128) <= 8 * (den
                            as u128) {
                            proof {
                                lemma_scaled_range(num as int, den as int, 8, 3_600_000);
                            }
                            self.extended_break_reminder_ms = ((num as u128) * 3_600_000 / (den
                                as u128)) as u64;
                            self.config_save_requested = true;
                        }
                    },
                    None => {},
                }
            },
            _ => {},
        }
        self.settings_cancel_editing();
        proof {
            assert(self@ =~= old(self)@.settings_apply_change_spec());
        }
    }

    /// Toggles the selected boolean field.
    pub fn settings_toggle_boolean(&mut self)
        ensures
            final(self)@ == old(self)@.settings_toggle_boolean_spec(),
    {
        match self.settings_selected_field {
            SettingsField::SoundEnabled => {
                self.sound_enabled = !self.sound_enabled;
                self.config_save_requested = true;
            },
            SettingsField::AutoStartNext => {
                self.auto_start_next = !self.auto_start_next;
                self.config_save_requested = true;
            },
            _ => {},
        }
    }

    /// Cycles the theme one step.
    pub fn settings_cycle_theme(&mut self, forward: bool)
        ensures
            final(self)@ == old(self)@.settings_cycle_theme_spec(forward),
    {
        if matches!(self.settings_selected_field, SettingsField::Theme) {
            let idx = theme_index(self.theme_name.as_str());
            let new_idx: u32 = if forward {
                if idx + 1 < THEME_COUNT {
                    idx + 1
                } else {
                    0
                }
            } else {
                if idx == 0 {
                    THEME_COUNT - 1
                } else {
                    idx - 1
                }
            };
            self.theme_name = theme_name_at(new_idx);
            self.config_save_requested = true;
            proof {
                assert(self@ =~= old(self)@.settings_cycle_theme_spec(forward));
            }
        }
    }
}

} // verus!
