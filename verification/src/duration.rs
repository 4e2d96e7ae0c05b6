//! The duration mini-grammar: strings such as `"25m"`, `"1h30m"` or
//! `"0.5m"` denote a span of time as a sum of `<number><unit>` segments
//! with units `h`, `m`, `s` (upper or lower case). The result is carried
//! in integer milliseconds.
//!
//! A number is a run of decimal digits with at most one dot. Each unit
//! character flushes the pending number, scaled to milliseconds and
//! truncated to a whole count; a unit with no valid pending number is an
//! error. Characters that are neither digits, dots nor units are
//! ignored, and digits left pending at the end of the string are
//! discarded, as is a dot-only number at a unit. The total must come to
//! more than zero milliseconds. Numbers too large to represent (integer
//! part beyond `u64`, more than 18 fractional digits, or a total beyond
//! `u64` milliseconds) are rejected at the unit that flushes them.

use vstd::prelude::*;

verus! {

/// Milliseconds in one hour.
pub const MS_PER_HOUR: u64 = 3_600_000;

/// Milliseconds in one minute.
pub const MS_PER_MINUTE: u64 = 60_000;

/// Milliseconds in one second.
pub const MS_PER_SECOND: u64 = 1_000;

/// Largest representable pending numerator.
pub const NUM_CAP: u64 = 18_446_744_073_709_551_615;

/// Largest supported denominator (18 fractional digits).
pub const DEN_CAP: u64 = 1_000_000_000_000_000_000;

/// Why a duration string was rejected.
#[derive(Clone, Copy, PartialEq, Eq, Structural, Debug)]
pub enum DurationError {
    /// The number in front of an `h` was missing or malformed.
    BadHours,
    /// The number in front of an `m` was missing or malformed.
    BadMinutes,
    /// The number in front of an `s` was missing or malformed.
    BadSeconds,
    /// The segments sum to zero milliseconds (or there were none).
    NoPositiveTotal,
}

/// The parser's state after consuming a prefix of the input.
#[verifier::ext_equal]
pub ghost struct DurationState {
    /// Digits of the pending number, read as an integer (the dot ignored).
    pub num: int,
    /// Scale of the pending number: ten to the number of fractional digits.
    pub den: int,
    /// Dots seen in the pending number, saturated at two.
    pub dots: int,
    /// Whether the pending number holds at least one digit.
    pub has_digit: bool,
    /// The pending numerator outgrew `NUM_CAP`.
    pub num_over: bool,
    /// The pending number has more than 18 fractional digits.
    pub den_over: bool,
    /// Milliseconds accumulated from flushed segments.
    pub total: int,
    /// The first error met, if any; once set, nothing changes any more.
    pub err: Option<DurationError>,
}

pub open spec fn duration_init() -> DurationState {
    DurationState {
        num: 0,
        den: 1,
        dots: 0,
        has_digit: false,
        num_over: false,
        den_over: false,
        total: 0,
        err: None,
    }
}

pub open spec fn is_digit_char(c: char) -> bool {
    48 <= c as int <= 57
}

pub open spec fn digit_val(c: char) -> int {
    c as int - 48
}

pub open spec fn unit_scale(c: char) -> Option<int> {
    if c == 'h' || c == 'H' {
        Some(MS_PER_HOUR as int)
    } else if c == 'm' || c == 'M' {
        Some(MS_PER_MINUTE as int)
    } else if c == 's' || c == 'S' {
        Some(MS_PER_SECOND as int)
    } else {
        None
    }
}

pub open spec fn unit_error(c: char) -> DurationError {
    if c == 'h' || c == 'H' {
        DurationError::BadHours
    } else if c == 'm' || c == 'M' {
        DurationError::BadMinutes
    } else {
        DurationError::BadSeconds
    }
}

/// One character's effect on the parser state.
pub open spec fn duration_step(st: DurationState, c: char) -> DurationState {
    if st.err is Some {
        st
    } else if is_digit_char(c) {
        let st1 = if st.num_over {
            st
        } else if st.num * 10 + digit_val(c) > NUM_CAP {
            DurationState { num_over: true, ..st }
        } else {
            DurationState { num: st.num * 10 + digit_val(c), ..st }
        };
        let st2 = if st1.dots >= 1 {
            if st1.den_over {
                st1
            } else if st1.den * 10 > DEN_CAP {
                DurationState { den_over: true, ..st1 }
            } else {
                DurationState { den: st1.den * 10, ..st1 }
            }
        } else {
            st1
        };
        DurationState { has_digit: true, ..st2 }
    } else if c == '.' {
        DurationState { dots: if st.dots >= 2 { 2int } else { st.dots + 1 }, ..st }
    } else if unit_scale(c) is Some {
        let valid = st.has_digit && st.dots <= 1 && !st.num_over && !st.den_over;
        if !valid {
            DurationState { err: Some(unit_error(c)), ..st }
        } else {
            let val = st.num * unit_scale(c)->0 / st.den;
            if st.total + val > NUM_CAP {
                DurationState { err: Some(unit_error(c)), ..st }
            } else {
                DurationState {
                    num: 0,
                    den: 1,
                    dots: 0,
                    has_digit: false,
                    total: st.total + val,
                    ..st
                }
            }
        }
    } else {
        st
    }
}

/// The parser state after the first `i` characters of `s`.
pub open spec fn duration_run(s: Seq<char>, i: int) -> DurationState
    decreases i,
{
    if i <= 0 {
        duration_init()
    } else {
        duration_step(duration_run(s, i - 1), s[i - 1])
    }
}

/// What parsing a whole duration string yields: the total in
/// milliseconds, or the error. Parsing is a function of the characters
/// alone, so it is deterministic, and a successful total is exactly the
/// sum of the flushed segments, each truncated to whole milliseconds.
pub open spec fn parse_duration_spec(s: Seq<char>) -> Result<int, DurationError> {
    let st = duration_run(s, s.len() as int);
    match st.err {
        Some(e) => Err(e),
        None => if st.total > 0 {
            Ok(st.total)
        } else {
            Err(DurationError::NoPositiveTotal)
        },
    }
}

/// The message each rejection carries.
pub open spec fn duration_error_message(e: DurationError) -> Seq<char> {
    match e {
        DurationError::BadHours => "Invalid hour format"@,
        DurationError::BadMinutes => "Invalid minute format"@,
        DurationError::BadSeconds => "Invalid second format"@,
        DurationError::NoPositiveTotal => "Invalid duration format. Use: 25m, 1h30m, 90m, 1.5h, 0.5m"@,
    }
}

/// Parses a duration string to milliseconds.
pub fn parse_duration_arg(s: &str) -> (r: Result<u64, String>)
    ensures
        match parse_duration_spec(s@) {
            Ok(v) => r is Ok && r->Ok_0 == v,
            Err(e) => r is Err && r->Err_0@ == duration_error_message(e),
        },
{
    let n = s.unicode_len();
    let mut num: u64 = 0;
    let mut den: u64 = 1;
    let mut dots: u8 = 0;
    let mut has_digit: bool = false;
    let mut num_over: bool = false;
    let mut den_over: bool = false;
    let mut total: u64 = 0;
    let mut err: Option<DurationError> = None;
    let mut i: usize = 0;
    while i < n
        invariant
            n == s@.len(),
            i <= n,
            duration_run(s@, i as int) == (DurationState {
                num: num as int,
                den: den as int,
                dots: dots as int,
                has_digit: has_digit,
                num_over: num_over,
                den_over: den_over,
                total: total as int,
                err: err,
            }),
            dots <= 2,
            1 <= den <= DEN_CAP,
        decreases n - i,
    {
        let c = s.get_char(i);
        let ghost pre = duration_run(s@, i as int);
        if err.is_none() {
            let v = c as u32;
            if 48 <= v && v <= 57 {
                let d = (v - 48) as u64;
                if !num_over {
                    let grown = num.checked_mul(10);
                    match grown {
                        Some(g) => match g.checked_add(d) {
                            Some(g2) => {
                                num = g2;
                            },
                            None => {
                                num_over = true;
                            },
                        },
                        None => {
                            num_over = true;
                        },
                    }
                }
                if dots >= 1 && !den_over {
                    if den > DEN_CAP / 10 {
                        den_over = true;
                    } else {
                        den = den * 10;
                    }
                }
                has_digit = true;
            } else if c == '.' {
                if dots < 2 {
                    dots = dots + 1;
                }
            } else if c == 'h' || c == 'H' || c == 'm' || c == 'M' || c == 's' || c == 'S' {
                let unit: u64 = if c == 'h' || c == 'H' {
                    MS_PER_HOUR
                } else if c == 'm' || c == 'M' {
                    MS_PER_MINUTE
                } else {
                    MS_PER_SECOND
                };
                let bad: DurationError = if c == 'h' || c == 'H' {
                    DurationError::BadHours
                } else if c == 'm' || c == 'M' {
                    DurationError::BadMinutes
                } else {
                    DurationError::BadSeconds
                };
                if !(has_digit && dots <= 1 && !num_over && !den_over) {
                    err = Some(bad);
                } else {
                    let val: u128 = (num as u128) * (unit as u128) / (den as u128);
                    let new_total: u128 = (total as u128) + val;
                    if new_total > NUM_CAP as u128 {
                        err = Some(bad);
                    } else {
                        total = new_total as u64;
                        num = 0;
                        den = 1;
                        dots = 0;
                        has_digit = false;
                    }
                }
            }
        }
        proof {
            assert(duration_run(s@, i + 1) == duration_step(pre, s@[i as int]));
            assert(duration_run(s@, i + 1) =~= (DurationState {
                num: num as int,
                den: den as int,
                dots: dots as int,
                has_digit: has_digit,
                num_over: num_over,
                den_over: den_over,
                total: total as int,
                err: err,
            }));
        }
        i = i + 1;
    }
    match err {
        Some(DurationError::BadHours) => Err("Invalid hour format".to_owned()),
        Some(DurationError::BadMinutes) => Err("Invalid minute format".to_owned()),
        Some(DurationError::BadSeconds) => Err("Invalid second format".to_owned()),
        Some(DurationError::NoPositiveTotal) => Err(
            "Invalid duration format. Use: 25m, 1h30m, 90m, 1.5h, 0.5m".to_owned(),
        ),
        None => {
            if total > 0 {
                Ok(total)
            } else {
                Err("Invalid duration format. Use: 25m, 1h30m, 90m, 1.5h, 0.5m".to_owned())
            }
        },
    }
}

} // verus!

