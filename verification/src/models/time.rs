//! Calendar dates and points in time.

use chrono::Datelike;
use chrono::Timelike;
use core::str::FromStr;
use vstd::prelude::*;

verus! {

/// A calendar date without a time of day.
#[derive(Clone, Copy, Debug, PartialEq, Eq, Structural)]
pub struct Date {
    pub year: i32,
    pub month: u32,
    pub day: u32,
}

/// A point in time without a time zone: a date, the seconds since midnight
/// on that date, and the nanoseconds since that second.
#[derive(Clone, Copy, Debug, PartialEq, Eq, Structural)]
pub struct Timestamp {
    pub date: Date,
    pub seconds: u32,
    pub nanos: u32,
}

impl Date {
    /// `self` is a later day than `other`.
    pub open spec fn later_than(self, other: Date) -> bool {
        ||| self.year > other.year
        ||| self.year == other.year && self.month > other.month
        ||| self.year == other.year && self.month == other.month && self.day > other.day
    }

    /// `self` is the same day as `other` or a later one.
    pub open spec fn not_before(self, other: Date) -> bool {
        self == other || self.later_than(other)
    }

    /// Decides whether `self` is a later day than `other`.
    pub fn is_after(&self, other: &Date) -> (r: bool)
        ensures
            r == self.later_than(*other),
    {
        self.year > other.year || (self.year == other.year && (self.month > other.month || (
        self.month == other.month && self.day > other.day)))
    }

    /// What a text stands for as a date, if anything.
    pub open spec fn parsed(s: Seq<char>) -> Option<Date> {
        match naive_date_from_str(s) {
            Some((year, month, day)) => Some(Date { year, month, day }),
            None => None,
        }
    }

    /// Reads a date written as year-month-day.
    pub fn parse(s: &str) -> (r: Option<Date>)
        ensures
            r == Date::parsed(s@),
    {
        naive_date_parse(s)
    }
}

impl Timestamp {
    /// Reads the clock: the date and the time of day, in UTC, of this moment.
    /// Panics where the system clock stands before 1970.
    pub fn now() -> (r: Timestamp)
        ensures
            r.in_range(),
    {
        utc_now()
    }

    /// The date is in range, the seconds are those of one day, and the
    /// nanoseconds are those of one second or, during a leap second, of two.
    pub open spec fn in_range(self) -> bool {
        &&& self.date.in_range()
        &&& self.seconds < 86_400
        &&& self.nanos < 2_000_000_000
    }
}

impl Date {
    /// The month is one of the twelve and the day is one of the 31 that a
    /// month can have.
    pub open spec fn in_range(self) -> bool {
        &&& 1 <= self.month <= 12
        &&& 1 <= self.day <= 31
    }
}

/// The date that `chrono` reads from a text, as year, month and day, or
/// `None` where it reads none.
pub uninterp spec fn naive_date_from_str(s: Seq<char>) -> Option<(i32, u32, u32)>;

/// Calls `<chrono::NaiveDate as FromStr>::from_str` and hands back the
/// `year`, `month` and `day` of what it read.
///
/// Claimed and not proved: the outcome depends on the text alone.
#[verifier::external_body]
fn naive_date_parse(s: &str) -> (r: Option<Date>)
    ensures
        r is Some <==> naive_date_from_str(s@) is Some,
        r matches Some(d) ==> naive_date_from_str(s@) == Some((d.year, d.month, d.day)),
{
    match chrono::NaiveDate::from_str(s) {
        Ok(d) => Some(Date { year: d.year(), month: d.month(), day: d.day() }),
        Err(_) => None,
    }
}

/// Calls `chrono::Utc::now` and hands back the date and time of day of its
/// `naive_utc`. The call panics where the system clock stands before 1970.
///
/// Claimed and not proved: whatever the clock said, the parts lie in the
/// ranges that `chrono` documents for them: `month` from 1 to 12, `day` from
/// 1 to 31, `num_seconds_from_midnight` below 86400 and `nanosecond` below
/// two thousand million. Nothing is claimed of the moment itself.
#[verifier::external_body]
fn utc_now() -> (r: Timestamp)
    ensures
        r.in_range(),
{
    let n = chrono::Utc::now().naive_utc();
    Timestamp {
        date: Date { year: n.year(), month: n.month(), day: n.day() },
        seconds: n.num_seconds_from_midnight(),
        nanos: n.nanosecond(),
    }
}

} // verus!
