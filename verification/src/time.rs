//! Publication dates and media lengths.
//!
//! The backend writes both as text. `chrono` reads the dates and `iso8601`
//! the lengths; what they read is kept here as plain numbers.

use chrono::{Datelike, NaiveDateTime, Timelike};
use vstd::prelude::*;

verus! {

/// A calendar date with a time of day, without a time zone.
#[derive(Debug, Clone, Copy, PartialEq, Eq, Structural)]
pub struct DateTime {
    pub year: i32,
    pub month: u32,
    pub day: u32,
    pub hour: u32,
    pub minute: u32,
    pub second: u32,
    /// Nanoseconds past `second`; a leap second is the 60th second written
    /// as second 59 with a billion or more nanoseconds.
    pub nanosecond: u32,
}

/// A span of time in calendar units.
#[derive(Debug, Clone, Copy, PartialEq, Eq, Structural)]
pub enum Duration {
    /// Years, months, days, hours, minutes, seconds and milliseconds.
    Ymdhms {
        year: u32,
        month: u32,
        day: u32,
        hour: u32,
        minute: u32,
        second: u32,
        millisecond: u32,
    },
    /// Whole weeks.
    Weeks(u32),
}

/// The date and time that `text` denotes, or `None` where it denotes none.
pub uninterp spec fn date_time_of_text(text: Seq<char>) -> Option<DateTime>;

/// The span of time that `text` denotes, or `None` where it denotes none.
pub uninterp spec fn duration_of_text(text: Seq<char>) -> Option<Duration>;

/// Trusted: `NaiveDateTime::from_str` of `chrono` reads `text` in the form
/// `2015-09-18T23:56:04` with an optional fraction of a second, or refuses
/// it; the outcome depends on the text alone. The fields are those that
/// `year`, `month`, `day`, `hour`, `minute`, `second` and `nanosecond`
/// return.
#[verifier::external_body]
fn read_date_time(text: &str) -> (r: Option<DateTime>)
    ensures
        r == date_time_of_text(text@),
{
    match text.parse::<NaiveDateTime>() {
        Ok(t) => Some(
            DateTime {
                year: t.year(),
                month: t.month(),
                day: t.day(),
                hour: t.hour(),
                minute: t.minute(),
                second: t.second(),
                nanosecond: t.nanosecond(),
            },
        ),
        Err(_) => None,
    }
}

/// Trusted: `iso8601::duration` reads the start of `text` as an ISO 8601
/// duration such as `P1Y2M3DT4H5M6S` or `P2W`, or refuses it; the outcome
/// depends on the text alone.
#[verifier::external_body]
fn read_duration(text: &str) -> (r: Option<Duration>)
    ensures
        r == duration_of_text(text@),
{
    match iso8601::duration(text) {
        Ok(iso8601::Duration::YMDHMS { year, month, day, hour, minute, second, millisecond }) => {
            Some(Duration::Ymdhms { year, month, day, hour, minute, second, millisecond })
        },
        Ok(iso8601::Duration::Weeks(weeks)) => Some(Duration::Weeks(weeks)),
        Err(_) => None,
    }
}

impl DateTime {
    /// Reads a date and time written as `2015-09-18T23:56:04`.
    pub fn parse(text: &str) -> (r: Option<DateTime>)
        ensures
            r == date_time_of_text(text@),
    {
        read_date_time(text)
    }
}

impl Duration {
    /// Reads an ISO 8601 duration.
    pub fn parse(text: &str) -> (r: Option<Duration>)
        ensures
            r == duration_of_text(text@),
    {
        read_duration(text)
    }
}

} // verus!
