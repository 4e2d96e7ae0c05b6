//! Durable user preferences and the resume snapshot, plus the fixed
//! theme list the settings editor cycles through.

use vstd::prelude::*;
use crate::text::str_eq;

verus! {

/// Durable user preferences. Durations and the reminder threshold are
/// held in milliseconds.
#[derive(Debug)]
pub struct Config {
    pub work_duration_ms: u64,
    pub rest_duration_ms: u64,
    pub long_break_duration_ms: u64,
    pub sessions_before_long_break: u32,
    pub sound_enabled: bool,
    pub theme: String,
    pub auto_start_next: bool,
    pub extended_break_reminder_ms: u64,
}

/// Mathematical image of a `Config`.
#[verifier::ext_equal]
pub ghost struct ConfigV {
    pub work_duration_ms: u64,
    pub rest_duration_ms: u64,
    pub long_break_duration_ms: u64,
    pub sessions_before_long_break: u32,
    pub sound_enabled: bool,
    pub theme: Seq<char>,
    pub auto_start_next: bool,
    pub extended_break_reminder_ms: u64,
}

impl DeepView for Config {
    type V = ConfigV;

    open spec fn deep_view(&self) -> ConfigV {
        ConfigV {
            work_duration_ms: self.work_duration_ms,
            rest_duration_ms: self.rest_duration_ms,
            long_break_duration_ms: self.long_break_duration_ms,
            sessions_before_long_break: self.sessions_before_long_break,
            sound_enabled: self.sound_enabled,
            theme: self.theme@,
            auto_start_next: self.auto_start_next,
            extended_break_reminder_ms: self.extended_break_reminder_ms,
        }
    }
}

impl ConfigV {
    /// The invariant a loaded configuration must satisfy: positive
    /// durations and a long-break cadence between 1 and 10.
    pub open spec fn valid(self) -> bool {
        &&& self.work_duration_ms >= 1
        &&& self.rest_duration_ms >= 1
        &&& self.long_break_duration_ms >= 1
        &&& 1 <= self.sessions_before_long_break <= 10
    }

    /// The built-in defaults: 25 work / 5 rest / 15 long-break minutes,
    /// long break every 4th session, sound on, default theme,
    /// auto-start on, reminder after 2 hours.
    pub open spec fn default_spec() -> ConfigV {
        ConfigV {
            work_duration_ms: 1_500_000,
            rest_duration_ms: 300_000,
            long_break_duration_ms: 900_000,
            sessions_before_long_break: 4,
            sound_enabled: true,
            theme: "default"@,
            auto_start_next: true,
            extended_break_reminder_ms: 7_200_000,
        }
    }
}

impl Default for Config {
    /// The built-in defaults, used whenever no stored configuration can
    /// be read back.
    fn default() -> (r: Config)
        ensures
            r.deep_view() == ConfigV::default_spec(),
            r.deep_view().valid(),
    {
        let r = Config {
            work_duration_ms: 1_500_000,
            rest_duration_ms: 300_000,
            long_break_duration_ms: 900_000,
            sessions_before_long_break: 4,
            sound_enabled: true,
            theme: "default".to_owned(),
            auto_start_next: true,
            extended_break_reminder_ms: 7_200_000,
        };
        proof {
            assert(r.deep_view() =~= ConfigV::default_spec());
        }
        r
    }
}

impl Config {
    /// Whether this configuration satisfies the loaded-config invariant.
    pub fn is_valid(&self) -> (r: bool)
        ensures
            r == self.deep_view().valid(),
    {
        self.work_duration_ms >= 1 && self.rest_duration_ms >= 1 && self.long_break_duration_ms
            >= 1 && 1 <= self.sessions_before_long_break && self.sessions_before_long_break <= 10
    }
}

/// The resume snapshot written on shutdown and read back at startup.
#[derive(Debug)]
pub struct TimerState {
    pub time_remaining_secs: u64,
    /// Phase slug: `work`, `short_break` or `long_break`.
    pub phase: String,
    pub session_count: u32,
    pub paused: bool,
}

/// Number of named themes.
pub const THEME_COUNT: u32 = 5;

/// Index of a theme name in the fixed cycle order; unknown names count
/// as the first (default) entry.
pub open spec fn theme_index_spec(name: Seq<char>) -> u32 {
    if name == "nord"@ {
        1u32
    } else if name == "dracula"@ {
        2u32
    } else if name == "gruvbox"@ {
        3u32
    } else if name == "solarized"@ {
        4u32
    } else {
        0u32
    }
}

/// The theme name at a cycle position.
pub open spec fn theme_name_spec(i: u32) -> Seq<char> {
    if i == 1 {
        "nord"@
    } else if i == 2 {
        "dracula"@
    } else if i == 3 {
        "gruvbox"@
    } else if i == 4 {
        "solarized"@
    } else {
        "default"@
    }
}

/// Whether a name is one of the five named themes.
pub fn is_valid_theme(name: &str) -> (r: bool)
    ensures
        r == (name@ == "default"@ || name@ == "nord"@ || name@ == "dracula"@ || name@
            == "gruvbox"@ || name@ == "solarized"@),
{
    str_eq(name, "default") || str_eq(name, "nord") || str_eq(name, "dracula") || str_eq(
        name,
        "gruvbox",
    ) || str_eq(name, "solarized")
}

/// The cycle position of a theme name.
pub fn theme_index(name: &str) -> (r: u32)
    ensures
        r == theme_index_spec(name@),
        r < THEME_COUNT,
{
    if str_eq(name, "nord") {
        1
    } else if str_eq(name, "dracula") {
        2
    } else if str_eq(name, "gruvbox") {
        3
    } else if str_eq(name, "solarized") {
        4
    } else {
        0
    }
}

/// The theme name at a cycle position.
pub fn theme_name_at(i: u32) -> (r: String)
    ensures
        r@ == theme_name_spec(i),
{
    if i == 1 {
        "nord".to_owned()
    } else if i == 2 {
        "dracula".to_owned()
    } else if i == 3 {
        "gruvbox".to_owned()
    } else if i == 4 {
        "solarized".to_owned()
    } else {
        "default".to_owned()
    }
}

} // verus!
