//! Decimal text handling for the settings editor: parsing an edit
//! buffer as a signed decimal number or a small integer, and formatting
//! stored values back into seed text (whole numbers plain, fractional
//! values with fixed decimal places, rounding half away from zero).

use vstd::prelude::*;
use crate::duration::{DEN_CAP, NUM_CAP};
use crate::text::push_char;

verus! {

/// State of the unsigned decimal scanner after a prefix of the text.
#[verifier::ext_equal]
pub ghost struct DecimalState {
    /// Digits read so far as an integer, the dot ignored.
    pub num: int,
    /// Ten to the number of fractional digits read.
    pub den: int,
    /// Dots seen, saturated at two.
    pub dots: int,
    pub has_digit: bool,
    /// Set by any character that is not a digit or a dot, or by a
    /// number too large to represent.
    pub bad: bool,
}

pub open spec fn decimal_init() -> DecimalState {
    DecimalState { num: 0, den: 1, dots: 0, has_digit: false, bad: false }
}

pub open spec fn decimal_step(st: DecimalState, c: char) -> DecimalState {
    if st.bad {
        st
    } else if crate::duration::is_digit_char(c) {
        let d = crate::duration::digit_val(c);
        if st.num * 10 + d > NUM_CAP || (st.dots >= 1 && st.den * 10 > DEN_CAP) {
            DecimalState { bad: true, ..st }
        } else {
            DecimalState {
                num: st.num * 10 + d,
                den: if st.dots >= 1 {
                    st.den * 10
                } else {
                    st.den
                },
                has_digit: true,
                ..st
            }
        }
    } else if c == '.' {
        DecimalState { dots: if st.dots >= 2 { 2int } else { st.dots + 1 }, ..st }
    } else {
        DecimalState { bad: true, ..st }
    }
}

pub open spec fn decimal_run(s: Seq<char>, i: int) -> DecimalState
    decreases i,
{
    if i <= 0 {
        decimal_init()
    } else {
        decimal_step(decimal_run(s, i - 1), s[i - 1])
    }
}

/// What parsing an edit buffer as a decimal number yields: the sign and
/// the value as the fraction `num / den`, or nothing when the text is
/// not a plain decimal number (an optional leading `+` or `-`, then
/// digits with at most one dot, at least one digit, nothing else).
pub open spec fn parse_decimal_spec(s: Seq<char>) -> Option<(bool, int, int)> {
    if s.len() == 0 {
        None
    } else {
        let signed = s[0] == '+' || s[0] == '-';
        let body = if signed {
            s.drop_first()
        } else {
            s
        };
        let st = decimal_run(body, body.len() as int);
        if !st.bad && st.has_digit && st.dots <= 1 {
            Some((s[0] == '-', st.num, st.den))
        } else {
            None
        }
    }
}

/// Parses an edit buffer as a decimal number: the sign and the value as
/// a fraction.
pub fn parse_decimal(s: &str) -> (r: Option<(bool, u64, u64)>)
    ensures
        match parse_decimal_spec(s@) {
            Some(t) => {
                &&& r == Some((t.0, t.1 as u64, t.2 as u64))
                &&& 0 <= t.1 <= NUM_CAP
                &&& 1 <= t.2 <= DEN_CAP
            },
            None => r is None,
        },
{
    let n = s.unicode_len();
    if n == 0 {
        return None;
    }
    let first = s.get_char(0);
    let signed = first == '+' || first == '-';
    let start: usize = if signed {
        1
    } else {
        0
    };
    let ghost body = if signed {
        s@.drop_first()
    } else {
        s@
    };
    let mut num: u64 = 0;
    let mut den: u64 = 1;
    let mut dots: u8 = 0;
    let mut has_digit: bool = false;
    let mut bad: bool = false;
    let mut i: usize = start;
    while i < n
        invariant
            n == s@.len(),
            start <= i <= n,
            start == 0 || start == 1,
            start == 1 ==> body == s@.drop_first(),
            start == 0 ==> body == s@,
            body.len() == n - start,
            forall|j: int| 0 <= j < body.len() ==> body[j] == s@[j + start],
            decimal_run(body, i - start) == (DecimalState {
                num: num as int,
                den: den as int,
                dots: dots as int,
                has_digit: has_digit,
                bad: bad,
            }),
            dots <= 2,
            1 <= den <= DEN_CAP,
        decreases n - i,
    {
        let c = s.get_char(i);
        let ghost pre = decimal_run(body, i - start);
        proof {
            assert(body[i - start] == s@[i as int]);
        }
        if !bad {
            let v = c as u32;
            if 48 <= v && v <= 57 {
                let d = (v - 48) as u64;
                let mut over: bool = false;
                let mut grown: u64 = 0;
                match num.checked_mul(10) {
                    Some(g) => match g.checked_add(d) {
                        Some(g2) => {
                            grown = g2;
                        },
                        None => {
                            over = true;
                        },
                    },
                    None => {
                        over = true;
                    },
                }
                if over || (dots >= 1 && den > DEN_CAP / 10) {
                    bad = true;
                } else {
                    num = grown;
                    if dots >= 1 {
                        den = den * 10;
                    }
                    has_digit = true;
                }
            } else if c == '.' {
                if dots < 2 {
                    dots = dots + 1;
                }
            } else {
                bad = true;
            }
        }
        proof {
            assert(decimal_run(body, i + 1 - start) == decimal_step(pre, body[i - start]));
            assert(decimal_run(body, i + 1 - start) =~= (DecimalState {
                num: num as int,
                den: den as int,
                dots: dots as int,
                has_digit: has_digit,
                bad: bad,
            }));
        }
        i = i + 1;
    }
    if !bad && has_digit && dots <= 1 {
        Some((first == '-', num, den))
    } else {
        None
    }
}

/// Parses an edit buffer as an unsigned integer: an optional leading
/// `+`, then only digits (no dot), with a value that fits in `u32`.
pub open spec fn parse_u32_spec(s: Seq<char>) -> Option<u32> {
    if s.len() == 0 {
        None
    } else {
        let body = if s[0] == '+' {
            s.drop_first()
        } else {
            s
        };
        let st = decimal_run(body, body.len() as int);
        if s[0] != '-' && !st.bad && st.has_digit && st.dots == 0 && st.num <= u32::MAX {
            Some(st.num as u32)
        } else {
            None
        }
    }
}

/// Parses an edit buffer as an unsigned integer.
pub fn parse_u32(s: &str) -> (r: Option<u32>)
    ensures
        r == parse_u32_spec(s@),
{
    let n = s.unicode_len();
    if n == 0 {
        return None;
    }
    let first = s.get_char(0);
    let start: usize = if first == '+' {
        1
    } else {
        0
    };
    let ghost body = if first == '+' {
        s@.drop_first()
    } else {
        s@
    };
    let mut num: u64 = 0;
    let mut dots: u8 = 0;
    let mut has_digit: bool = false;
    let mut bad: bool = false;
    let mut i: usize = start;
    while i < n
        invariant
            n == s@.len(),
            start <= i <= n,
            start == 0 || start == 1,
            start == 1 ==> body == s@.drop_first(),
            start == 0 ==> body == s@,
            body.len() == n - start,
            forall|j: int| 0 <= j < body.len() ==> body[j] == s@[j + start],
            dots >= 1 ==> decimal_run(body, i - start).dots >= 1,
            dots == 0 ==> decimal_run(body, i - start) == (DecimalState {
                num: num as int,
                den: 1,
                dots: 0,
                has_digit: has_digit,
                bad: bad,
            }),
        decreases n - i,
    {
        let c = s.get_char(i);
        let ghost pre = decimal_run(body, i - start);
        proof {
            assert(body[i - start] == s@[i as int]);
        }
        if !bad && dots == 0 {
            let v = c as u32;
            if 48 <= v && v <= 57 {
                let d = (v - 48) as u64;
                match num.checked_mul(10) {
                    Some(g) => match g.checked_add(d) {
                        Some(g2) => {
                            num = g2;
                            has_digit = true;
                        },
                        None => {
                            bad = true;
                        },
                    },
                    None => {
                        bad = true;
                    },
                }
            } else if c == '.' {
                dots = 1;
            } else {
                bad = true;
            }
        }
        proof {
            assert(decimal_run(body, i + 1 - start) == decimal_step(pre, body[i - start]));
        }
        i = i + 1;
    }
    if first != '-' && !bad && dots == 0 && has_digit && num <= 0xFFFF_FFFF {
        Some(num as u32)
    } else {
        None
    }
}

/// The character for one decimal digit.
pub open spec fn digit_char(d: int) -> char {
    if d == 0 {
        '0'
    } else if d == 1 {
        '1'
    } else if d == 2 {
        '2'
    } else if d == 3 {
        '3'
    } else if d == 4 {
        '4'
    } else if d == 5 {
        '5'
    } else if d == 6 {
        '6'
    } else if d == 7 {
        '7'
    } else if d == 8 {
        '8'
    } else {
        '9'
    }
}

fn digit_char_exec(d: u64) -> (c: char)
    requires
        d < 10,
    ensures
        c == digit_char(d as int),
{
    if d == 0 {
        '0'
    } else if d == 1 {
        '1'
    } else if d == 2 {
        '2'
    } else if d == 3 {
        '3'
    } else if d == 4 {
        '4'
    } else if d == 5 {
        '5'
    } else if d == 6 {
        '6'
    } else if d == 7 {
        '7'
    } else if d == 8 {
        '8'
    } else {
        '9'
    }
}

/// The usual decimal notation of a whole number, without sign or padding.
pub open spec fn dec_digits(n: int) -> Seq<char>
    decreases n,
{
    if n < 10 {
        seq![digit_char(n)]
    } else {
        dec_digits(n / 10).push(digit_char(n % 10))
    }
}

/// Formats a whole number in decimal.
pub fn format_u64(n: u64) -> (r: String)
    ensures
        r@ == dec_digits(n as int),
    decreases n,
{
    if n < 10 {
        let mut s = String::new();
        push_char(&mut s, digit_char_exec(n));
        proof {
            assert(s@ =~= seq![digit_char(n as int)]);
        }
        s
    } else {
        let mut s = format_u64(n / 10);
        push_char(&mut s, digit_char_exec(n % 10));
        s
    }
}

/// The seed text for a duration field: the value in minutes, plain when
/// it is whole, else with exactly two decimal places (rounded half up).
#[verifier::opaque]
pub open spec fn minutes_text(ms: u64) -> Seq<char> {
    if ms % 60_000 == 0 {
        dec_digits(ms as int / 60_000)
    } else {
        let centi = ms as int / 600 + if ms as int % 600 >= 300 {
            1int
        } else {
            0int
        };
        dec_digits(centi / 100) + seq!['.', digit_char((centi / 10) % 10), digit_char(centi % 10)]
    }
}

/// Formats a duration in milliseconds as minutes for the settings
/// editor's edit buffer.
pub fn format_minutes(ms: u64) -> (r: String)
    ensures
        r@ == minutes_text(ms),
{
    proof {
        reveal(minutes_text);
    }
    if ms % 60_000 == 0 {
        format_u64(ms / 60_000)
    } else {
        let centi: u64 = ms / 600 + if ms % 600 >= 300 {
            1
        } else {
            0
        };
        let mut s = format_u64(centi / 100);
        push_char(&mut s, '.');
        push_char(&mut s, digit_char_exec((centi / 10) % 10));
        push_char(&mut s, digit_char_exec(centi % 10));
        proof {
            assert(s@ =~= minutes_text(ms));
        }
        s
    }
}

/// The seed text for the reminder threshold: the value in hours, plain
/// when it is whole, else with exactly one decimal place (rounded half up).
#[verifier::opaque]
pub open spec fn hours_text(ms: u64) -> Seq<char> {
    if ms % 3_600_000 == 0 {
        dec_digits(ms as int / 3_600_000)
    } else {
        let deci = ms as int / 360_000 + if ms as int % 360_000 >= 180_000 {
            1int
        } else {
            0int
        };
        dec_digits(deci / 10) + seq!['.', digit_char(deci % 10)]
    }
}

/// Formats a threshold in milliseconds as hours for the settings
/// editor's edit buffer.
pub fn format_hours(ms: u64) -> (r: String)
    ensures
        r@ == hours_text(ms),
{
    proof {
        reveal(hours_text);
    }
    if ms % 3_600_000 == 0 {
        format_u64(ms / 3_600_000)
    } else {
        let deci: u64 = ms / 360_000 + if ms % 360_000 >= 180_000 {
            1
        } else {
            0
        };
        let mut s = format_u64(deci / 10);
        push_char(&mut s, '.');
        push_char(&mut s, digit_char_exec(deci % 10));
        proof {
            assert(s@ =~= hours_text(ms));
        }
        s
    }
}

/// A count of minutes shown as hours with exactly two decimal places
/// (rounded to the nearest hundredth, half up), as the CSV summary uses.
pub open spec fn minutes_as_hours_text(mins: u64) -> Seq<char> {
    let centi = 5 * (mins as int / 3) + if mins as int % 3 == 0 {
        0int
    } else if mins as int % 3 == 1 {
        2int
    } else {
        3int
    };
    dec_digits(centi / 100) + seq!['.', digit_char((centi / 10) % 10), digit_char(centi % 10)]
}

/// Formats a count of minutes as hours with two decimal places.
pub fn format_minutes_as_hours(mins: u64) -> (r: String)
    ensures
        r@ == minutes_as_hours_text(mins),
{
    let centi: u128 = 5 * (mins as u128 / 3) + if mins % 3 == 0 {
        0
    } else if mins % 3 == 1 {
        2
    } else {
        3
    };
    let whole: u64 = (centi / 100) as u64;
    let tens: u64 = ((centi / 10) % 10) as u64;
    let ones: u64 = (centi % 10) as u64;
    let mut s = format_u64(whole);
    push_char(&mut s, '.');
    push_char(&mut s, digit_char_exec(tens));
    push_char(&mut s, digit_char_exec(ones));
    proof {
        assert(s@ =~= minutes_as_hours_text(mins));
    }
    s
}

} // verus!
