//! Trusted readings of the local clock and calendar. The values depend
//! on when and where the process runs, so the contracts promise only
//! what holds of every reading; callers take the readings as arguments
//! and are verified for every value.

use chrono::Datelike;
use vstd::prelude::*;

verus! {

/// Relies on `chrono::Local::now` and `DateTime::to_rfc3339`: the
/// current local time as an RFC 3339 timestamp. The value depends on
/// the clock, so nothing is promised of it.
#[verifier::external_body]
pub(crate) fn now_rfc3339() -> String {
    chrono::Local::now().to_rfc3339()
}

/// Relies on `chrono::Local::now` and `DateTime::format` with
/// `%Y-%m-%d`: today's local calendar date. The value depends on the
/// clock, so nothing is promised of it.
#[verifier::external_body]
pub(crate) fn today_string() -> String {
    chrono::Local::now().format("%Y-%m-%d").to_string()
}

/// Relies on `chrono::Datelike::weekday` and
/// `Weekday::num_days_from_monday`, documented to count Monday as 0
/// through Sunday as 6.
#[verifier::external_body]
pub(crate) fn weekday_index() -> (r: u8)
    ensures
        r < 7,
{
    chrono::Local::now().weekday().num_days_from_monday() as u8
}

} // verus!
