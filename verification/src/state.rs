//! Shared data model: phases, screens, editor modes, keys, notices,
//! and the durable statistics records.

use vstd::prelude::*;

verus! {

/// The three countdown purposes a session can be in.
#[derive(Clone, Copy, PartialEq, Eq, Structural, Debug)]
pub enum Phase {
    Work,
    ShortBreak,
    LongBreak,
}

/// The seven mutually exclusive screens.
#[derive(Clone, Copy, PartialEq, Eq, Structural, Debug)]
pub enum Screen {
    Timer,
    Help,
    StatsSummary,
    StatsDetailed,
    StatsHistory,
    Settings,
    Notes,
}

/// The eight fields of the settings editor, in cursor order.
#[derive(Clone, Copy, PartialEq, Eq, Structural, Debug)]
pub enum SettingsField {
    WorkDuration,
    RestDuration,
    LongBreakDuration,
    SessionsBeforeLongBreak,
    Theme,
    SoundEnabled,
    AutoStartNext,
    ExtendedBreakReminder,
}

/// The modes of the notes editor's finite state machine.
#[derive(Clone, Copy, PartialEq, Eq, Structural, Debug)]
pub enum NotesMode {
    Viewing,
    Adding,
    Editing,
    ConfirmingDelete,
}

/// A keyboard event, already stripped of terminal-library detail.
#[derive(Clone, Copy, PartialEq, Eq, Structural, Debug)]
pub enum Key {
    Char(char),
    Backspace,
    Enter,
    Esc,
    Up,
    Down,
    Left,
    Right,
    Tab,
    PageUp,
    PageDown,
    Other,
}

/// A desktop notification the state machine asks the embedding program
/// to deliver (fire-and-forget; delivery failures are never reported back).
#[derive(Clone, Copy, PartialEq, Eq, Structural, Debug)]
pub enum Notice {
    LongBreakStart,
    ShortBreakStart,
    BackToWork,
    ExtendedBreakWarning,
}

impl Phase {
    /// The short identifier used in persisted snapshots and note records.
    pub fn slug(self) -> (r: String)
        ensures
            r@ == self.slug_spec(),
    {
        match self {
            Phase::Work => "work".to_owned(),
            Phase::ShortBreak => "short_break".to_owned(),
            Phase::LongBreak => "long_break".to_owned(),
        }
    }

    pub open spec fn slug_spec(self) -> Seq<char> {
        match self {
            Phase::Work => "work"@,
            Phase::ShortBreak => "short_break"@,
            Phase::LongBreak => "long_break"@,
        }
    }

    /// The label used in session history records.
    pub fn label(self) -> (r: String)
        ensures
            r@ == self.label_spec(),
    {
        match self {
            Phase::Work => "Work".to_owned(),
            Phase::ShortBreak => "Short Break".to_owned(),
            Phase::LongBreak => "Long Break".to_owned(),
        }
    }

    pub open spec fn label_spec(self) -> Seq<char> {
        match self {
            Phase::Work => "Work"@,
            Phase::ShortBreak => "Short Break"@,
            Phase::LongBreak => "Long Break"@,
        }
    }

    /// Reads a phase back from its persisted slug; anything unrecognised
    /// falls back to `Work`, as the resume path tolerates tampered files.
    pub fn from_slug(s: &str) -> (r: Phase)
        ensures
            r == Self::from_slug_spec(s@),
    {
        if crate::text::str_eq(s, "short_break") {
            Phase::ShortBreak
        } else if crate::text::str_eq(s, "long_break") {
            Phase::LongBreak
        } else {
            Phase::Work
        }
    }

    pub open spec fn from_slug_spec(s: Seq<char>) -> Phase {
        if s == "short_break"@ {
            Phase::ShortBreak
        } else if s == "long_break"@ {
            Phase::LongBreak
        } else {
            Phase::Work
        }
    }
}

} // verus!
