//! Wall-clock dates and times without a time zone, as the feeds write them,
//! and their reading in the transit system's zone.

use chrono::{Datelike, Timelike};
use vstd::prelude::*;

verus! {

/// A calendar date.
#[derive(Clone, Copy, Debug, PartialEq, Eq, Structural)]
pub struct CivilDate {
    /// The year of the proleptic Gregorian calendar.
    pub year: i32,
    /// The month, from 1.
    pub month: u32,
    /// The day of the month, from 1.
    pub day: u32,
}

/// A calendar date with a time of day.
#[derive(Clone, Copy, Debug, PartialEq, Eq, Structural)]
pub struct CivilDateTime {
    /// The date.
    pub date: CivilDate,
    /// The hour, from 0.
    pub hour: u32,
    /// The minute.
    pub minute: u32,
    /// The second.
    pub second: u32,
    /// The nanoseconds past the second; a billion or more within a leap
    /// second.
    pub nano: u32,
}

impl CivilDate {
    /// The first instant of this date.
    pub open spec fn midnight(self) -> CivilDateTime {
        CivilDateTime { date: self, hour: 0, minute: 0, second: 0, nano: 0 }
    }

    /// The first instant of this date.
    pub fn at_midnight(self) -> (r: CivilDateTime)
        ensures
            r == self.midnight(),
    {
        CivilDateTime { date: self, hour: 0, minute: 0, second: 0, nano: 0 }
    }
}

/// What `chrono` reads from `s` as a date with a time
/// (`<NaiveDateTime as FromStr>::from_str`), by its calendar fields; `None`
/// where it reports an error.
pub uninterp spec fn chrono_datetime(s: Seq<char>) -> Option<CivilDateTime>;

/// What `chrono` reads from `s` as a bare date
/// (`<NaiveDate as FromStr>::from_str`), by its calendar fields; `None` where
/// it reports an error.
pub uninterp spec fn chrono_date(s: Seq<char>) -> Option<CivilDate>;

/// The Unix timestamp of the earliest instant at which clocks in
/// `America/Chicago` show `t`, as `chrono` and `chrono_tz` compute it;
/// `None` where `t` is no date and time of the calendar or falls in a gap
/// of that zone.
pub uninterp spec fn chicago_timestamp(t: CivilDateTime) -> Option<i64>;

/// Calls `<chrono::NaiveDateTime as FromStr>::from_str` and hands back the
/// calendar fields of what it read. The result is a function of the text
/// alone, named `chrono_datetime`.
#[verifier::external_body]
pub(crate) fn parse_datetime(s: &str) -> (r: Option<CivilDateTime>)
    ensures
        r == chrono_datetime(s@),
{
    let t = s.parse::<chrono::NaiveDateTime>().ok()?;
    let date = CivilDate { year: t.year(), month: t.month(), day: t.day() };
    Some(
        CivilDateTime {
            date,
            hour: t.hour(),
            minute: t.minute(),
            second: t.second(),
            nano: t.nanosecond(),
        },
    )
}

/// Calls `<chrono::NaiveDate as FromStr>::from_str` and hands back the
/// calendar fields of what it read. The result is a function of the text
/// alone, named `chrono_date`.
#[verifier::external_body]
pub(crate) fn parse_date(s: &str) -> (r: Option<CivilDate>)
    ensures
        r == chrono_date(s@),
{
    let d = s.parse::<chrono::NaiveDate>().ok()?;
    Some(CivilDate { year: d.year(), month: d.month(), day: d.day() })
}

/// Calls `chrono::NaiveDateTime::and_local_timezone` with
/// `chrono_tz::America::Chicago` on the date and time that the fields of `t`
/// name, and hands back the timestamp of the earliest instant it maps to.
/// The zone's rules are compiled into `chrono_tz`, so the result is a
/// function of `t` alone, named `chicago_timestamp`.
#[verifier::external_body]
pub(crate) fn local_timestamp(t: CivilDateTime) -> (r: Option<i64>)
    ensures
        r == chicago_timestamp(t),
{
    let date = chrono::NaiveDate::from_ymd_opt(t.date.year, t.date.month, t.date.day)?;
    let naive = date.and_hms_nano_opt(t.hour, t.minute, t.second, t.nano)?;
    let zoned = naive.and_local_timezone(chrono_tz::America::Chicago).earliest()?;
    Some(zoned.timestamp())
}

} // verus!
