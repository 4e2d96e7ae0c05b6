//! The live application state and the phase engine: countdown,
//! phase transitions, session accounting and the extended-break
//! reminder, together with the constructors used at startup.
//!
//! The state machine is pure: outward effects (notifications to
//! deliver, configuration or statistics writes, a CSV export) are
//! queued in the state as requests, and the embedding control loop
//! carries them out and reports back.

use vstd::prelude::*;
use crate::config::{Config, TimerState};
use crate::state::{Key, Notice, NotesMode, Phase, Screen, SettingsField};
use crate::stats::{
    history_push, HISTORY_CAP, Note, NoteV, SessionRecord, SessionRecordV, Statistics, StatisticsV,
};

verus! {

/// Saturating add on `u32` counters: the ledger tops out rather than
/// wrapping or failing.
pub open spec fn sat_add_u32(a: u32, b: u32) -> u32 {
    if a + b > u32::MAX {
        u32::MAX
    } else {
        (a + b) as u32
    }
}

/// Saturating add on `u64` accumulators.
pub open spec fn sat_add_u64(a: u64, b: u64) -> u64 {
    if a + b > u64::MAX {
        u64::MAX
    } else {
        (a + b) as u64
    }
}

/// Saturating subtraction on `u64`.
pub open spec fn sat_sub_u64(a: u64, b: u64) -> u64 {
    if a >= b {
        (a - b) as u64
    } else {
        0
    }
}

/// The whole mutable application state.
pub struct AppState {
    // Countdown
    pub time_remaining_ms: u64,
    pub paused: bool,
    /// Number of the work session currently running (the first is 1).
    pub session_count: u32,
    pub phase: Phase,
    // Configuration owned by the engine
    pub work_duration_ms: u64,
    pub rest_duration_ms: u64,
    pub long_break_duration_ms: u64,
    pub sessions_before_long_break: u32,
    pub sound_enabled: bool,
    pub theme_name: String,
    pub auto_start_next: bool,
    pub extended_break_reminder_ms: u64,
    // Statistics
    pub stats: Statistics,
    // View navigation
    pub current_view: Screen,
    pub animation_frame: u8,
    pub minimized: bool,
    // Settings editor
    pub settings_selected_field: SettingsField,
    pub settings_editing: bool,
    pub settings_input: String,
    // Notes editor
    pub notes_mode: NotesMode,
    pub notes_input: String,
    pub note_scroll_offset: usize,
    pub selected_note_index: Option<usize>,
    // Persistence bookkeeping
    pub needs_stats_save: bool,
    pub last_auto_save_ms: u64,
    // Extended-break reminder
    pub last_extended_break_check_ms: u64,
    pub work_time_since_break_ms: u64,
    // Requested outward effects
    pub pending_notices: Vec<Notice>,
    pub config_save_requested: bool,
    pub export_requested: bool,
}

/// Mathematical image of the application state.
#[verifier::ext_equal]
pub ghost struct AppStateV {
    pub time_remaining_ms: u64,
    pub paused: bool,
    pub session_count: u32,
    pub phase: Phase,
    pub work_duration_ms: u64,
    pub rest_duration_ms: u64,
    pub long_break_duration_ms: u64,
    pub sessions_before_long_break: u32,
    pub sound_enabled: bool,
    pub theme_name: Seq<char>,
    pub auto_start_next: bool,
    pub extended_break_reminder_ms: u64,
    pub stats: StatisticsV,
    pub current_view: Screen,
    pub animation_frame: u8,
    pub minimized: bool,
    pub settings_selected_field: SettingsField,
    pub settings_editing: bool,
    pub settings_input: Seq<char>,
    pub notes_mode: NotesMode,
    pub notes_input: Seq<char>,
    pub note_scroll_offset: usize,
    pub selected_note_index: Option<usize>,
    pub needs_stats_save: bool,
    pub last_auto_save_ms: u64,
    pub last_extended_break_check_ms: u64,
    pub work_time_since_break_ms: u64,
    pub pending_notices: Seq<Notice>,
    pub config_save_requested: bool,
    pub export_requested: bool,
}

impl View for AppState {
    type V = AppStateV;

    open spec fn view(&self) -> AppStateV {
        AppStateV {
            time_remaining_ms: self.time_remaining_ms,
            paused: self.paused,
            session_count: self.session_count,
            phase: self.phase,
            work_duration_ms: self.work_duration_ms,
            rest_duration_ms: self.rest_duration_ms,
            long_break_duration_ms: self.long_break_duration_ms,
            sessions_before_long_break: self.sessions_before_long_break,
            sound_enabled: self.sound_enabled,
            theme_name: self.theme_name@,
            auto_start_next: self.auto_start_next,
            extended_break_reminder_ms: self.extended_break_reminder_ms,
            stats: self.stats.deep_view(),
            current_view: self.current_view,
            animation_frame: self.animation_frame,
            minimized: self.minimized,
            settings_selected_field: self.settings_selected_field,
            settings_editing: self.settings_editing,
            settings_input: self.settings_input@,
            notes_mode: self.notes_mode,
            notes_input: self.notes_input@,
            note_scroll_offset: self.note_scroll_offset,
            selected_note_index: self.selected_note_index,
            needs_stats_save: self.needs_stats_save,
            last_auto_save_ms: self.last_auto_save_ms,
            last_extended_break_check_ms: self.last_extended_break_check_ms,
            work_time_since_break_ms: self.work_time_since_break_ms,
            pending_notices: self.pending_notices@,
            config_save_requested: self.config_save_requested,
            export_requested: self.export_requested,
        }
    }
}

impl AppStateV {
    /// Structural invariant: a sound ledger, a long-break cadence of at
    /// least one, a bounded animation counter, and a note selection
    /// that points into the list exactly when the list is non-empty.
    pub open spec fn wf(self) -> bool {
        &&& self.stats.wf()
        &&& self.sessions_before_long_break >= 1
        &&& self.animation_frame < 20
        &&& match self.selected_note_index {
            Some(i) => i < self.stats.notes.len(),
            None => self.stats.notes.len() == 0,
        }
    }

    /// The configured length of the phase now running.
    pub open spec fn total_duration_ms(self) -> u64 {
        match self.phase {
            Phase::Work => self.work_duration_ms,
            Phase::ShortBreak => self.rest_duration_ms,
            Phase::LongBreak => self.long_break_duration_ms,
        }
    }

    /// The history line written when the running phase ends: it is
    /// `completed` only when under five seconds were left.
    pub open spec fn completion_record(self, ts: Seq<char>) -> SessionRecordV {
        SessionRecordV {
            timestamp: ts,
            phase_type: self.phase.label_spec(),
            duration: (self.total_duration_ms() / 60_000) as u64,
            completed: self.time_remaining_ms < 5_000,
        }
    }

    /// Ending the running phase: record it, settle the ledger, pick the
    /// next phase (a long break after every `sessions_before_long_break`th
    /// work session, counted by the number of the session just ended;
    /// every break returns to work), load the next countdown, queue the
    /// matching notification, and pause unless auto-start is on.
    pub open spec fn next_phase_spec(self, ts: Seq<char>, weekday: u8) -> AppStateV {
        let rec = self.completion_record(ts);
        let hist = history_push(self.stats.session_history, rec);
        match self.phase {
            Phase::Work => {
                let stats1 = StatisticsV {
                    total_work_time: sat_add_u64(
                        self.stats.total_work_time,
                        (self.work_duration_ms / 60_000) as u64,
                    ),
                    total_sessions: sat_add_u32(self.stats.total_sessions, 1),
                    sessions_today: sat_add_u32(self.stats.sessions_today, 1),
                    weekly_sessions: self.stats.weekly_sessions.update(
                        weekday as int,
                        sat_add_u32(self.stats.weekly_sessions[weekday as int], 1),
                    ),
                    session_history: hist,
                    ..self.stats
                };
                let ended = self.session_count;
                if ended % self.sessions_before_long_break == 0 {
                    AppStateV {
                        phase: Phase::LongBreak,
                        time_remaining_ms: self.long_break_duration_ms,
                        session_count: sat_add_u32(ended, 1),
                        stats: stats1,
                        work_time_since_break_ms: 0,
                        pending_notices: self.pending_notices.push(Notice::LongBreakStart),
                        paused: !self.auto_start_next,
                        needs_stats_save: true,
                        ..self
                    }
                } else {
                    AppStateV {
                        phase: Phase::ShortBreak,
                        time_remaining_ms: self.rest_duration_ms,
                        session_count: sat_add_u32(ended, 1),
                        stats: stats1,
                        work_time_since_break_ms: sat_add_u64(
                            self.work_time_since_break_ms,
                            self.work_duration_ms,
                        ),
                        pending_notices: self.pending_notices.push(Notice::ShortBreakStart),
                        paused: !self.auto_start_next,
                        needs_stats_save: true,
                        ..self
                    }
                }
            },
            _ => {
                let stats1 = StatisticsV {
                    total_break_time: sat_add_u64(
                        self.stats.total_break_time,
                        (self.total_duration_ms() / 60_000) as u64,
                    ),
                    session_history: hist,
                    ..self.stats
                };
                AppStateV {
                    phase: Phase::Work,
                    time_remaining_ms: self.work_duration_ms,
                    stats: stats1,
                    pending_notices: self.pending_notices.push(Notice::BackToWork),
                    paused: !self.auto_start_next,
                    needs_stats_save: true,
                    ..self
                }
            },
        }
    }

    /// Opening the notes screen: viewing mode, most recent note
    /// selected when any exist.
    pub open spec fn open_notes_spec(self) -> AppStateV {
        AppStateV {
            current_view: Screen::Notes,
            notes_mode: NotesMode::Viewing,
            selected_note_index: if self.stats.notes.len() > 0 {
                Some((self.stats.notes.len() - 1) as usize)
            } else {
                None
            },
            ..self
        }
    }

    /// The throttled extended-break check: at most once per 60 real
    /// seconds; when the work accumulated since the last long break has
    /// reached the threshold, queue a warning and restart the
    /// accumulator from zero.
    pub open spec fn reminder_spec(self, now_ms: u64) -> AppStateV {
        if sat_sub_u64(now_ms, self.last_extended_break_check_ms) < 60_000 {
            self
        } else {
            let s1 = AppStateV { last_extended_break_check_ms: now_ms, ..self };
            if self.work_time_since_break_ms >= self.extended_break_reminder_ms {
                AppStateV {
                    work_time_since_break_ms: 0,
                    pending_notices: s1.pending_notices.push(Notice::ExtendedBreakWarning),
                    ..s1
                }
            } else {
                s1
            }
        }
    }

    /// One 50 ms control-loop tick: while unpaused with time on the
    /// clock, count down (never below zero), run the reminder check in
    /// work phases, and end the phase once under a second remains. The
    /// animation counter always advances modulo 20.
    pub open spec fn tick_spec(self, now_ms: u64, ts: Seq<char>, weekday: u8) -> AppStateV {
        let s3 = if !self.paused && self.time_remaining_ms > 0 {
            let s1 = AppStateV { time_remaining_ms: sat_sub_u64(self.time_remaining_ms, 50), ..self };
            let s2 = if s1.phase == Phase::Work {
                s1.reminder_spec(now_ms)
            } else {
                s1
            };
            if s2.time_remaining_ms < 1_000 {
                s2.next_phase_spec(ts, weekday)
            } else {
                s2
            }
        } else {
            self
        };
        AppStateV { animation_frame: (((s3.animation_frame as int) + 1) % 20) as u8, ..s3 }
    }
}

impl AppState {
    /// A fresh state from merged configuration and the loaded ledger:
    /// session 1, work phase, full countdown, timer view, and the most
    /// recent note selected if there is one.
    pub fn create_app_state_from_args(config: Config, stats: Statistics) -> (r: AppState)
        requires
            config.deep_view().sessions_before_long_break >= 1,
            stats.deep_view().wf(),
        ensures
            r@ == AppState::fresh_view(config.deep_view(), stats.deep_view()),
            r@.wf(),
    {
        let selected: Option<usize> = if stats.notes.len() > 0 {
            Some(stats.notes.len() - 1)
        } else {
            None
        };
        let time_remaining_ms = config.work_duration_ms;
        let r = AppState {
            time_remaining_ms,
            paused: false,
            session_count: 1,
            phase: Phase::Work,
            work_duration_ms: config.work_duration_ms,
            rest_duration_ms: config.rest_duration_ms,
            long_break_duration_ms: config.long_break_duration_ms,
            sessions_before_long_break: config.sessions_before_long_break,
            sound_enabled: config.sound_enabled,
            theme_name: config.theme,
            auto_start_next: config.auto_start_next,
            extended_break_reminder_ms: config.extended_break_reminder_ms,
            stats,
            current_view: Screen::Timer,
            animation_frame: 0,
            minimized: false,
            settings_selected_field: SettingsField::WorkDuration,
            settings_editing: false,
            settings_input: String::new(),
            notes_mode: NotesMode::Viewing,
            notes_input: String::new(),
            note_scroll_offset: 0,
            selected_note_index: selected,
            needs_stats_save: false,
            last_auto_save_ms: 0,
            last_extended_break_check_ms: 0,
            work_time_since_break_ms: 0,
            pending_notices: Vec::new(),
            config_save_requested: false,
            export_requested: false,
        };
        proof {
            assert(r@ =~= AppState::fresh_view(config.deep_view(), stats.deep_view()));
        }
        r
    }

    /// A state seeded from the resume snapshot instead of a fresh
    /// countdown: remaining time, phase, session number and pause flag
    /// come from the snapshot, everything else as from scratch.
    pub fn create_app_state_from_saved(saved: TimerState, config: Config, stats: Statistics) -> (r:
        AppState)
        requires
            config.deep_view().sessions_before_long_break >= 1,
            stats.deep_view().wf(),
        ensures
            r@ == (AppStateV {
                time_remaining_ms: sat_mul_1000(saved.time_remaining_secs),
                paused: saved.paused,
                session_count: saved.session_count,
                phase: Phase::from_slug_spec(saved.phase@),
                ..AppState::fresh_view(config.deep_view(), stats.deep_view())
            }),
            r@.wf(),
    {
        let phase = Phase::from_slug(saved.phase.as_str());
        let remaining: u64 = match saved.time_remaining_secs.checked_mul(1000) {
            Some(v) => v,
            None => u64::MAX,
        };
        let mut r = Self::create_app_state_from_args(config, stats);
        r.time_remaining_ms = remaining;
        r.paused = saved.paused;
        r.session_count = saved.session_count;
        r.phase = phase;
        proof {
            assert(r@ =~= AppStateV {
                time_remaining_ms: sat_mul_1000(saved.time_remaining_secs),
                paused: saved.paused,
                session_count: saved.session_count,
                phase: Phase::from_slug_spec(saved.phase@),
                ..AppState::fresh_view(config.deep_view(), stats.deep_view())
            });
        }
        r
    }

    /// The state `create_app_state_from_args` builds, as a value.
    pub open spec fn fresh_view(config: crate::config::ConfigV, stats: StatisticsV) -> AppStateV {
        AppStateV {
            time_remaining_ms: config.work_duration_ms,
            paused: false,
            session_count: 1,
            phase: Phase::Work,
            work_duration_ms: config.work_duration_ms,
            rest_duration_ms: config.rest_duration_ms,
            long_break_duration_ms: config.long_break_duration_ms,
            sessions_before_long_break: config.sessions_before_long_break,
            sound_enabled: config.sound_enabled,
            theme_name: config.theme,
            auto_start_next: config.auto_start_next,
            extended_break_reminder_ms: config.extended_break_reminder_ms,
            stats: stats,
            current_view: Screen::Timer,
            animation_frame: 0,
            minimized: false,
            settings_selected_field: SettingsField::WorkDuration,
            settings_editing: false,
            settings_input: Seq::<char>::empty(),
            notes_mode: NotesMode::Viewing,
            notes_input: Seq::<char>::empty(),
            note_scroll_offset: 0,
            selected_note_index: if stats.notes.len() > 0 {
                Some((stats.notes.len() - 1) as usize)
            } else {
                None
            },
            needs_stats_save: false,
            last_auto_save_ms: 0,
            last_extended_break_check_ms: 0,
            work_time_since_break_ms: 0,
            pending_notices: Seq::<Notice>::empty(),
            config_save_requested: false,
            export_requested: false,
        }
    }
}

impl AppState {
    /// The configured length of the phase now running.
    pub fn total_duration_ms(&self) -> (r: u64)
        ensures
            r == self@.total_duration_ms(),
    {
        match self.phase {
            Phase::Work => self.work_duration_ms,
            Phase::ShortBreak => self.rest_duration_ms,
            Phase::LongBreak => self.long_break_duration_ms,
        }
    }

    /// Ends the running phase now, as the countdown reaching zero or
    /// the user skipping does. `ts` stamps the history record and
    /// `weekday` (0 = Monday) picks the weekly counter.
    #[verifier::rlimit(60)]
    pub fn next_phase(&mut self, ts: String, weekday: u8)
        requires
            old(self)@.wf(),
            weekday < 7,
        ensures
            final(self)@ == old(self)@.next_phase_spec(ts@, weekday),
            final(self)@.wf(),
    {
        let completed = self.time_remaining_ms < 5_000;
        let duration_min = self.total_duration_ms() / 60_000;
        let rec = SessionRecord {
            timestamp: ts,
            phase_type: self.phase.label(),
            duration: duration_min,
            completed,
        };
        let ghost rec_v = old(self)@.completion_record(ts@);
        let ghost old_hist = old(self)@.stats.session_history;
        proof {
            assert(rec.deep_view() =~= rec_v);
        }
        self.stats.session_history.push(rec);
        proof {
            let dv = self.stats.session_history.deep_view();
            assert forall|i: int| 0 <= i < dv.len() implies #[trigger] dv[i] == old_hist.push(
                rec_v,
            )[i] by {
                if i < old_hist.len() {
                    assert(self.stats.session_history@[i]
                        == old(self).stats.session_history@[i]);
                }
            }
            assert(dv =~= old_hist.push(rec_v));
        }
        if self.stats.session_history.len() > HISTORY_CAP {
            let ghost full = self.stats.session_history.deep_view();
            let ghost prev = self.stats.session_history@;
            self.stats.session_history.remove(0);
            proof {
                prev.remove_ensures(0);
                let dv = self.stats.session_history.deep_view();
                assert forall|i: int| 0 <= i < dv.len() implies #[trigger] dv[i] == full[i
                    + 1] by {
                    assert(self.stats.session_history@[i] == prev[i + 1]);
                }
                assert(dv =~= full.drop_first());
                assert(dv =~= history_push(old_hist, rec_v));
            }
        }
        proof {
            assert(self.stats.session_history.deep_view() =~= history_push(old_hist, rec_v));
        }
        let ghost mid = self@;
        match self.phase {
            Phase::Work => {
                self.stats.total_work_time = self.stats.total_work_time.saturating_add(
                    self.work_duration_ms / 60_000,
                );
                self.stats.total_sessions = self.stats.total_sessions.saturating_add(1);
                self.stats.sessions_today = self.stats.sessions_today.saturating_add(1);
                let idx = weekday as usize;
                let cur = self.stats.weekly_sessions[idx];
                self.stats.weekly_sessions[idx] = cur.saturating_add(1);
                let ended = self.session_count;
                self.session_count = ended.saturating_add(1);
                if ended % self.sessions_before_long_break == 0 {
                    self.phase = Phase::LongBreak;
                    self.time_remaining_ms = self.long_break_duration_ms;
                    self.work_time_since_break_ms = 0;
                    self.pending_notices.push(Notice::LongBreakStart);
                } else {
                    self.phase = Phase::ShortBreak;
                    self.time_remaining_ms = self.rest_duration_ms;
                    self.work_time_since_break_ms = self.work_time_since_break_ms.saturating_add(
                        self.work_duration_ms,
                    );
                    self.pending_notices.push(Notice::ShortBreakStart);
                }
            },
            _ => {
                let break_min = self.total_duration_ms() / 60_000;
                self.stats.total_break_time = self.stats.total_break_time.saturating_add(
                    break_min,
                );
                self.phase = Phase::Work;
                self.time_remaining_ms = self.work_duration_ms;
                self.pending_notices.push(Notice::BackToWork);
            },
        }
        self.paused = !self.auto_start_next;
        self.needs_stats_save = true;
        proof {
            assert(self@ =~~= old(self)@.next_phase_spec(ts@, weekday));
        }
    }

    /// The throttled extended-break check, driven by the monotonic
    /// clock reading `now_ms`.
    pub fn check_extended_break_reminder(&mut self, now_ms: u64)
        ensures
            final(self)@ == old(self)@.reminder_spec(now_ms),
    {
        if now_ms.saturating_sub(self.last_extended_break_check_ms) < 60_000 {
            return ;
        }
        self.last_extended_break_check_ms = now_ms;
        if self.work_time_since_break_ms >= self.extended_break_reminder_ms {
            self.pending_notices.push(Notice::ExtendedBreakWarning);
            self.work_time_since_break_ms = 0;
        }
        proof {
            assert(self@ =~~= old(self)@.reminder_spec(now_ms));
        }
    }

    /// One 50 ms control-loop tick.
    #[verifier::rlimit(60)]
    pub fn update_timer(&mut self, now_ms: u64, ts: String, weekday: u8)
        requires
            old(self)@.wf(),
            weekday < 7,
        ensures
            final(self)@ == old(self)@.tick_spec(now_ms, ts@, weekday),
            final(self)@.wf(),
    {
        let ghost s0 = self@;
        if !self.paused && self.time_remaining_ms > 0 {
            self.time_remaining_ms = self.time_remaining_ms.saturating_sub(50);
            proof {
                assert(self@ =~= (AppStateV {
                    time_remaining_ms: sat_sub_u64(s0.time_remaining_ms, 50),
                    ..s0
                }));
            }
            let ghost s1 = self@;
            if matches!(self.phase, Phase::Work) {
                self.check_extended_break_reminder(now_ms);
            }
            proof {
                assert(self@ == if s1.phase == Phase::Work {
                    s1.reminder_spec(now_ms)
                } else {
                    s1
                });
            }
            let ghost s2 = self@;
            if self.time_remaining_ms < 1_000 {
                self.next_phase(ts, weekday);
            }
            proof {
                assert(self@ == if s2.time_remaining_ms < 1_000 {
                    s2.next_phase_spec(ts@, weekday)
                } else {
                    s2
                });
            }
        }
        let ghost s3 = self@;
        self.animation_frame = (self.animation_frame + 1) % 20;
        proof {
            assert(self@ =~= (AppStateV {
                animation_frame: (((s3.animation_frame as int) + 1) % 20) as u8,
                ..s3
            }));
            assert(self@ =~= old(self)@.tick_spec(now_ms, ts@, weekday));
        }
    }

    /// Flips the pause flag; nothing else changes.
    pub fn toggle_pause(&mut self)
        ensures
            final(self)@ == (AppStateV { paused: !old(self)@.paused, ..old(self)@ }),
    {
        self.paused = !self.paused;
    }

    /// Flips the minimized flag; nothing else changes.
    pub fn toggle_minimize(&mut self)
        ensures
            final(self)@ == (AppStateV { minimized: !old(self)@.minimized, ..old(self)@ }),
    {
        self.minimized = !self.minimized;
    }

    /// Rewinds the countdown to the full length of the current phase
    /// and unpauses; no record is written and the ledger is untouched.
    pub fn reset_timer(&mut self)
        ensures
            final(self)@ == (AppStateV {
                time_remaining_ms: old(self)@.total_duration_ms(),
                paused: false,
                ..old(self)@
            }),
    {
        self.time_remaining_ms = self.total_duration_ms();
        self.paused = false;
    }

    /// Opens the notes screen in viewing mode, selecting the most
    /// recent note if any exist.
    pub fn open_notes(&mut self)
        ensures
            final(self)@ == (AppStateV {
                current_view: Screen::Notes,
                notes_mode: NotesMode::Viewing,
                selected_note_index: if old(self)@.stats.notes.len() > 0 {
                    Some((old(self)@.stats.notes.len() - 1) as usize)
                } else {
                    None
                },
                ..old(self)@
            }),
    {
        self.current_view = Screen::Notes;
        self.notes_mode = NotesMode::Viewing;
        self.selected_note_index = if self.stats.notes.len() > 0 {
            Some(self.stats.notes.len() - 1)
        } else {
            None
        };
    }

    /// Opens the settings screen.
    pub fn open_settings(&mut self)
        ensures
            final(self)@ == (AppStateV { current_view: Screen::Settings, ..old(self)@ }),
    {
        self.current_view = Screen::Settings;
    }

    /// Marks the in-memory statistics as differing from the last write.
    pub fn mark_stats_dirty(&mut self)
        ensures
            final(self)@ == (AppStateV { needs_stats_save: true, ..old(self)@ }),
    {
        self.needs_stats_save = true;
    }

    /// Whether the debounced autosave is due: there are unsaved changes
    /// and at least five real seconds have passed since the last write.
    pub fn should_autosave(&self, now_ms: u64) -> (r: bool)
        ensures
            r == (self@.needs_stats_save && sat_sub_u64(now_ms, self@.last_auto_save_ms)
                >= 5_000),
    {
        self.needs_stats_save && now_ms.saturating_sub(self.last_auto_save_ms) >= 5_000
    }

    /// Records the outcome of an autosave attempt: the write moment is
    /// remembered either way, and the dirty flag clears only on success.
    pub fn finish_autosave(&mut self, now_ms: u64, ok: bool)
        ensures
            final(self)@ == (AppStateV {
                last_auto_save_ms: now_ms,
                needs_stats_save: old(self)@.needs_stats_save && !ok,
                ..old(self)@
            }),
    {
        self.last_auto_save_ms = now_ms;
        if ok {
            self.needs_stats_save = false;
        }
    }

    /// Records the outcome of an undebounced statistics write (as on
    /// quit): the dirty flag clears only on success.
    pub fn finish_stats_save(&mut self, ok: bool)
        ensures
            final(self)@ == (AppStateV {
                needs_stats_save: old(self)@.needs_stats_save && !ok,
                ..old(self)@
            }),
    {
        if ok {
            self.needs_stats_save = false;
        }
    }

    /// The resume snapshot to persist on shutdown.
    pub fn timer_snapshot(&self) -> (r: TimerState)
        ensures
            r.time_remaining_secs == self@.time_remaining_ms / 1000,
            r.phase@ == self@.phase.slug_spec(),
            r.session_count == self@.session_count,
            r.paused == self@.paused,
    {
        TimerState {
            time_remaining_secs: self.time_remaining_ms / 1000,
            phase: self.phase.slug(),
            session_count: self.session_count,
            paused: self.paused,
        }
    }

    /// Hands out the queued notifications and leaves the queue empty.
    pub fn take_notices(&mut self) -> (r: Vec<Notice>)
        ensures
            r@ == old(self)@.pending_notices,
            final(self)@ == (AppStateV { pending_notices: Seq::<Notice>::empty(), ..old(self)@ }),
    {
        let mut v: Vec<Notice> = Vec::new();
        core::mem::swap(&mut v, &mut self.pending_notices);
        v
    }

    /// Whether a configuration write was requested; asking clears the
    /// request.
    pub fn take_config_save_request(&mut self) -> (r: bool)
        ensures
            r == old(self)@.config_save_requested,
            final(self)@ == (AppStateV { config_save_requested: false, ..old(self)@ }),
    {
        let r = self.config_save_requested;
        self.config_save_requested = false;
        r
    }

    /// Whether a CSV export was requested; asking clears the request.
    pub fn take_export_request(&mut self) -> (r: bool)
        ensures
            r == old(self)@.export_requested,
            final(self)@ == (AppStateV { export_requested: false, ..old(self)@ }),
    {
        let r = self.export_requested;
        self.export_requested = false;
        r
    }

    /// The configuration to persist after an accepted settings change.
    pub fn current_config(&self) -> (r: Config)
        ensures
            r.deep_view() == (crate::config::ConfigV {
                work_duration_ms: self@.work_duration_ms,
                rest_duration_ms: self@.rest_duration_ms,
                long_break_duration_ms: self@.long_break_duration_ms,
                sessions_before_long_break: self@.sessions_before_long_break,
                sound_enabled: self@.sound_enabled,
                theme: self@.theme_name,
                auto_start_next: self@.auto_start_next,
                extended_break_reminder_ms: self@.extended_break_reminder_ms,
            }),
    {
        let r = Config {
            work_duration_ms: self.work_duration_ms,
            rest_duration_ms: self.rest_duration_ms,
            long_break_duration_ms: self.long_break_duration_ms,
            sessions_before_long_break: self.sessions_before_long_break,
            sound_enabled: self.sound_enabled,
            theme: self.theme_name.clone(),
            auto_start_next: self.auto_start_next,
            extended_break_reminder_ms: self.extended_break_reminder_ms,
        };
        proof {
            assert(r.deep_view() =~= (crate::config::ConfigV {
                work_duration_ms: self@.work_duration_ms,
                rest_duration_ms: self@.rest_duration_ms,
                long_break_duration_ms: self@.long_break_duration_ms,
                sessions_before_long_break: self@.sessions_before_long_break,
                sound_enabled: self@.sound_enabled,
                theme: self@.theme_name,
                auto_start_next: self@.auto_start_next,
                extended_break_reminder_ms: self@.extended_break_reminder_ms,
            }));
        }
        r
    }
}

impl AppState {
    /// One control-loop tick stamped with the real clock: the
    /// timestamp and weekday come from the local clock, so the final
    /// state is the tick transition for some such reading.
    pub fn update_timer_now(&mut self, now_ms: u64)
        requires
            old(self)@.wf(),
        ensures
            exists|ts: Seq<char>, wd: u8|
                wd < 7 && final(self)@ == old(self)@.tick_spec(now_ms, ts, wd),
            final(self)@.wf(),
    {
        let ts = crate::clock::now_rfc3339();
        let wd = crate::clock::weekday_index();
        let ghost tsv = ts@;
        self.update_timer(now_ms, ts, wd);
        proof {
            assert(self@ == old(self)@.tick_spec(now_ms, tsv, wd));
        }
    }

    /// One key press stamped with the real clock.
    pub fn handle_key_event_now(&mut self, key: Key, ctrl: bool) -> (quit: bool)
        requires
            old(self)@.wf(),
        ensures
            exists|ts: Seq<char>, wd: u8|
                wd < 7 && final(self)@ == crate::input::handle_key_spec(
                    old(self)@,
                    key,
                    ctrl,
                    ts,
                    wd,
                ).0 && quit == crate::input::handle_key_spec(old(self)@, key, ctrl, ts, wd).1,
            final(self)@.wf(),
    {
        let ts = crate::clock::now_rfc3339();
        let wd = crate::clock::weekday_index();
        let ghost tsv = ts@;
        let quit = self.handle_key_event(key, ctrl, ts, wd);
        proof {
            assert(self@ == crate::input::handle_key_spec(old(self)@, key, ctrl, tsv, wd).0
                && quit == crate::input::handle_key_spec(old(self)@, key, ctrl, tsv, wd).1);
        }
        quit
    }
}

impl Statistics {
    /// A fresh ledger stamped with today's date from the local clock.
    pub fn fresh_today() -> (r: Statistics)
        ensures
            exists|today: Seq<char>|
                r.deep_view() == (StatisticsV {
                    total_sessions: 0,
                    total_work_time: 0,
                    total_break_time: 0,
                    sessions_today: 0,
                    last_session_date: today,
                    session_history: Seq::<SessionRecordV>::empty(),
                    weekly_sessions: seq![0u32, 0u32, 0u32, 0u32, 0u32, 0u32, 0u32],
                    notes: Seq::<NoteV>::empty(),
                }),
            r.deep_view().wf(),
    {
        let today = crate::clock::today_string();
        let ghost tv = today@;
        let r = Statistics::fresh(today);
        proof {
            assert(r.deep_view() == (StatisticsV {
                total_sessions: 0,
                total_work_time: 0,
                total_break_time: 0,
                sessions_today: 0,
                last_session_date: tv,
                session_history: Seq::<SessionRecordV>::empty(),
                weekly_sessions: seq![0u32, 0u32, 0u32, 0u32, 0u32, 0u32, 0u32],
                notes: Seq::<NoteV>::empty(),
            }));
        }
        r
    }

    /// The startup daily/weekly reset against today's date from the
    /// local clock.
    pub fn reset_daily_stats_now(&mut self)
        requires
            old(self).deep_view().wf(),
        ensures
            exists|today: Seq<char>|
                final(self).deep_view() == crate::stats::daily_reset(
                    old(self).deep_view(),
                    today,
                ),
            final(self).deep_view().wf(),
    {
        let today = crate::clock::today_string();
        let ghost tv = today@;
        self.reset_daily_stats_if_needed(today);
        proof {
            assert(self.deep_view() == crate::stats::daily_reset(old(self).deep_view(), tv));
        }
    }
}

/// While unpaused, one tick never increases the remaining time unless
/// it completed the phase and loaded the next phase's full countdown;
/// once the clock shows zero it stays at zero until a phase change, and
/// as an unsigned count it is never negative. Chained over any sequence
/// of ticks, the remaining time is non-increasing between completions.
pub proof fn lemma_tick_monotone(s: AppStateV, now_ms: u64, ts: Seq<char>, weekday: u8)
    requires
        !s.paused,
    ensures
        ({
            let t = s.tick_spec(now_ms, ts, weekday);
            &&& (s.time_remaining_ms > 0 && sat_sub_u64(s.time_remaining_ms, 50) >= 1_000)
                ==> t.time_remaining_ms < s.time_remaining_ms
            &&& s.time_remaining_ms == 0 ==> t.time_remaining_ms == 0
        }),
{
}

/// The long-break cadence: completing the running work session yields a
/// long break exactly when the session's number is a multiple of the
/// configured cadence, else a short break — with a cadence of 4 and
/// counting from session 1: short, short, short, long, short, … — and
/// completing any break returns to work. Leaving work numbers the next
/// session one higher.
pub proof fn lemma_phase_sequencing(s: AppStateV, ts: Seq<char>, weekday: u8)
    requires
        s.sessions_before_long_break >= 1,
    ensures
        s.phase == Phase::Work ==> ({
            let t = s.next_phase_spec(ts, weekday);
            &&& t.phase == (if s.session_count % s.sessions_before_long_break == 0 {
                Phase::LongBreak
            } else {
                Phase::ShortBreak
            })
            &&& t.session_count == sat_add_u32(s.session_count, 1)
        }),
        s.phase != Phase::Work ==> s.next_phase_spec(ts, weekday).phase == Phase::Work,
{
}

/// One thousand times a second count, topping out at the largest
/// representable millisecond count.
pub open spec fn sat_mul_1000(secs: u64) -> u64 {
    if secs * 1000 > u64::MAX {
        u64::MAX
    } else {
        (secs * 1000) as u64
    }
}

} // verus!
