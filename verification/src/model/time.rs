//! Calendar dates and timestamps as plain numbers.
//!
//! A date is its day number in the proleptic Gregorian calendar, with
//! January 1 of year 1 as day 1. A timestamp adds the seconds since midnight
//! and the nanoseconds within that second. Ordering and day differences are
//! then ordinary integer arithmetic.

use chrono::{Datelike, NaiveDate, NaiveDateTime, NaiveTime, Timelike};
use vstd::prelude::*;

verus! {

/// Day number of the earliest date that the calendar library can hold
/// (January 1 of the year -262143).
pub const MIN_DAY: i32 = -95_746_129;

/// Day number of the latest date that the calendar library can hold
/// (December 31 of the year 262142).
pub const MAX_DAY: i32 = 95_745_399;

/// A calendar date, as its day number (January 1 of year 1 is day 1).
#[derive(Debug, Clone, Copy, PartialEq, Eq, Structural)]
pub struct Date {
    pub days: i32,
}

/// A date with a time of day.
#[derive(Debug, Clone, Copy, PartialEq, Eq, Structural)]
pub struct Timestamp {
    /// The calendar date.
    pub date: Date,
    /// Seconds since midnight.
    pub second: u32,
    /// Nanoseconds within the second.
    pub nano: u32,
}

impl Date {
    /// The day number lies within the calendar's range.
    pub open spec fn wf(self) -> bool {
        MIN_DAY <= self.days <= MAX_DAY
    }

    /// The date with the given day number.
    pub fn new(days: i32) -> (d: Date)
        ensures
            d.days == days,
    {
        Date { days }
    }

    /// Whole days from `earlier` to `self` (negative if `earlier` is later).
    pub open spec fn days_since_spec(self, earlier: Date) -> int {
        self.days - earlier.days
    }

    /// Whole days from `earlier` to `self` (negative if `earlier` is later).
    pub fn days_since(self, earlier: Date) -> (n: i64)
        ensures
            n == self.days_since_spec(earlier),
    {
        let a: i64 = self.days as i64;
        let b: i64 = earlier.days as i64;
        a - b
    }

    /// Midnight at the start of this date.
    pub fn at_midnight(self) -> (t: Timestamp)
        ensures
            t == (Timestamp { date: self, second: 0, nano: 0 }),
    {
        Timestamp { date: self, second: 0, nano: 0 }
    }
}

impl Timestamp {
    /// The date lies within the calendar's range and the time is a time of
    /// day: less than 86400 seconds, and nanoseconds below one second, or
    /// below two within a leap second (the last second of a minute).
    pub open spec fn wf(self) -> bool {
        &&& self.date.wf()
        &&& self.second < 86_400
        &&& self.nano < 2_000_000_000
        &&& (self.nano >= 1_000_000_000 ==> self.second % 60 == 59)
    }

    /// The timestamp with the given date, seconds since midnight and nanoseconds.
    pub fn new(date: Date, second: u32, nano: u32) -> (t: Timestamp)
        ensures
            t == (Timestamp { date, second, nano }),
    {
        Timestamp { date, second, nano }
    }

    /// `self` comes strictly before `other`: by date, then second, then
    /// nanosecond.
    pub open spec fn before_spec(self, other: Timestamp) -> bool {
        ||| self.date.days < other.date.days
        ||| (self.date.days == other.date.days && self.second < other.second)
        ||| (self.date.days == other.date.days && self.second == other.second && self.nano
            < other.nano)
    }

    /// Whether `self` comes strictly before `other`.
    pub fn before(self, other: Timestamp) -> (r: bool)
        ensures
            r == self.before_spec(other),
    {
        if self.date.days != other.date.days {
            self.date.days < other.date.days
        } else if self.second != other.second {
            self.second < other.second
        } else {
            self.nano < other.nano
        }
    }

    /// Whether the time of day is anything but midnight.
    pub open spec fn has_time_spec(self) -> bool {
        self.second != 0 || self.nano != 0
    }
}

/// Two timestamps are ordered one way, the other way, or are equal.
pub proof fn lemma_before_is_total(a: Timestamp, b: Timestamp)
    ensures
        a.before_spec(b) || b.before_spec(a) || a == b,
        !(a.before_spec(b) && b.before_spec(a)),
        !a.before_spec(a),
{
}

/// The order of timestamps is transitive.
pub proof fn lemma_before_is_transitive(a: Timestamp, b: Timestamp, c: Timestamp)
    requires
        a.before_spec(b),
        b.before_spec(c),
    ensures
        a.before_spec(c),
{
}

/// What the calendar library writes for a timestamp under a format pattern.
/// The arguments are the day number, the seconds since midnight, the
/// nanoseconds and the pattern.
pub uninterp spec fn formatted_timestamp(
    days: int,
    second: int,
    nano: int,
    pattern: Seq<char>,
) -> Seq<char>;

/// What the calendar library reads from `text` as a timestamp written
/// under a format pattern: day number, seconds since midnight and
/// nanoseconds.
pub uninterp spec fn parsed_timestamp(text: Seq<char>, pattern: Seq<char>) -> Option<
    (int, int, int),
>;

/// What the calendar library reads from `text` as a date written under a
/// format pattern: its day number.
pub uninterp spec fn parsed_date(text: Seq<char>, pattern: Seq<char>) -> Option<int>;

/// The format patterns in use: the file name stamp, the date alone, and the
/// date in words.
pub open spec fn is_known_pattern(pattern: Seq<char>) -> bool {
    pattern == "%Y-%m-%dT%H%M%S"@ || pattern == "%Y-%m-%d"@ || pattern == "%B %d, %Y"@
}

/// The timestamp with the given parts, where all three fit their fields.
pub open spec fn timestamp_of(parts: Option<(int, int, int)>) -> Option<Timestamp> {
    match parts {
        Some((days, second, nano)) => Some(
            Timestamp { date: Date { days: days as i32 }, second: second as u32, nano: nano as u32 },
        ),
        None => None,
    }
}

/// The date with the given day number.
pub open spec fn date_of(days: Option<int>) -> Option<Date> {
    match days {
        Some(d) => Some(Date { days: d as i32 }),
        None => None,
    }
}

/// `NaiveDateTime::format` of chrono, written out through `Display`: the
/// text depends on the timestamp and the pattern alone. The date and time
/// are built with `NaiveDate::from_num_days_from_ce_opt` and
/// `NaiveTime::from_num_seconds_from_midnight_opt`, which accept every
/// well-formed timestamp.
#[verifier::external_body]
pub(crate) fn format_timestamp(t: Timestamp, pattern: &str) -> (s: String)
    requires
        t.wf(),
        is_known_pattern(pattern@),
    ensures
        s@ == formatted_timestamp(t.date.days as int, t.second as int, t.nano as int, pattern@),
{
    let date = NaiveDate::from_num_days_from_ce_opt(t.date.days).unwrap();
    let time = NaiveTime::from_num_seconds_from_midnight_opt(t.second, t.nano).unwrap();
    date.and_time(time).format(pattern).to_string()
}

/// `NaiveDateTime::parse_from_str` of chrono: the result depends on the
/// text and the pattern alone, and a timestamp that it returns is
/// well-formed.
#[verifier::external_body]
pub(crate) fn parse_timestamp(text: &str, pattern: &str) -> (r: Option<Timestamp>)
    requires
        is_known_pattern(pattern@),
    ensures
        r == timestamp_of(parsed_timestamp(text@, pattern@)),
        r matches Some(t) ==> t.wf(),
{
    match NaiveDateTime::parse_from_str(text, pattern) {
        Ok(dt) => Some(
            Timestamp {
                date: Date { days: dt.date().num_days_from_ce() },
                second: dt.time().num_seconds_from_midnight(),
                nano: dt.time().nanosecond(),
            },
        ),
        Err(_) => None,
    }
}

/// `NaiveDate::parse_from_str` of chrono: the result depends on the text
/// and the pattern alone, and a date that it returns is well-formed.
#[verifier::external_body]
pub(crate) fn parse_date(text: &str, pattern: &str) -> (r: Option<Date>)
    requires
        is_known_pattern(pattern@),
    ensures
        r == date_of(parsed_date(text@, pattern@)),
        r matches Some(d) ==> d.wf(),
{
    match NaiveDate::parse_from_str(text, pattern) {
        Ok(date) => Some(Date { days: date.num_days_from_ce() }),
        Err(_) => None,
    }
}

} // verus!
