//! Instants and calendar days in UTC.

use chrono::TimeZone;
use vstd::prelude::*;

use crate::text::is_digit;

verus! {

/// First and last day that can be represented, counted from 1970-01-01.
pub const MIN_DAY: i32 = -96465292;

pub const MAX_DAY: i32 = 95026236;

/// The first second of the year 10000, from which on a year is written with a
/// sign.
pub const YEAR_10000: i64 = 253402300800;

/// The seconds of a day.
pub const DAY_SECONDS: i64 = 86400;

/// The way dates are written and read.
pub const DATE_PATTERN: &'static str = "%Y-%m-%d";

/// Dates in file names.
pub const COMPACT_DATE_PATTERN: &'static str = "%Y%m%d";

/// Instants to the minute.
pub const MINUTE_PATTERN: &'static str = "%Y-%m-%d %H:%M";

/// Instants to the second.
pub const SECOND_PATTERN: &'static str = "%Y-%m-%d %H:%M:%S";

/// Whether a number of seconds since 1970-01-01 and the nanoseconds within
/// the second denote an instant. The nanoseconds go past a full second only in
/// the last second of a minute, where they denote a leap second.
pub open spec fn valid_instant(secs: int, nanos: int) -> bool {
    &&& MIN_DAY * DAY_SECONDS <= secs < (MAX_DAY + 1) * DAY_SECONDS
    &&& 0 <= nanos < 2_000_000_000
    &&& nanos < 1_000_000_000 || secs % 60 == 59
}

/// An instant in UTC.
pub struct Timestamp {
    secs: i64,
    nanos: u32,
}

impl View for Timestamp {
    type V = (int, int);

    /// The seconds since 1970-01-01, and the nanoseconds within the second.
    closed spec fn view(&self) -> (int, int) {
        (self.secs as int, self.nanos as int)
    }
}

impl Timestamp {
    #[verifier::type_invariant]
    spec fn in_range(self) -> bool {
        valid_instant(self.secs as int, self.nanos as int)
    }

    /// Makes an instant, where the two numbers denote one.
    pub fn new(secs: i64, nanos: u32) -> (r: Option<Timestamp>)
        ensures
            r is Some <==> valid_instant(secs as int, nanos as int),
            r matches Some(t) ==> t@ == (secs as int, nanos as int),
    {
        let first: i64 = MIN_DAY as i64 * DAY_SECONDS;
        let end: i64 = (MAX_DAY as i64 + 1) * DAY_SECONDS;
        if secs < first || secs >= end || nanos >= 2_000_000_000 {
            return None;
        }
        if nanos >= 1_000_000_000 {
            // The remainder is taken of a number that is not negative.
            let in_minute: i64 = (secs - first) % 60;
            if in_minute != 59 {
                return None;
            }
        }
        Some(Timestamp { secs, nanos })
    }

    /// The seconds since 1970-01-01.
    pub fn unix_seconds(&self) -> (r: i64)
        ensures
            r == self@.0,
    {
        self.secs
    }

    /// The nanoseconds within the second.
    pub fn subsec_nanos(&self) -> (r: u32)
        ensures
            r == self@.1,
    {
        self.nanos
    }

    /// The same instant once more.
    pub fn copy(&self) -> (r: Timestamp)
        ensures
            r == *self,
    {
        proof {
            use_type_invariant(self);
        }
        Timestamp { secs: self.secs, nanos: self.nanos }
    }

    /// Whether this instant comes after another one.
    pub fn is_after(&self, other: &Timestamp) -> (r: bool)
        ensures
            r == later(self@, other@),
    {
        self.secs > other.secs || (self.secs == other.secs && self.nanos > other.nanos)
    }

    /// The instant to the minute, such as `2026-05-11 09:30`.
    pub fn minute_text(&self) -> (r: String)
        ensures
            r@ == instant_text(self@.0, self@.1, MINUTE_PATTERN@),
    {
        proof {
            use_type_invariant(self);
        }
        format_instant(self.secs, self.nanos, MINUTE_PATTERN)
    }

    /// The instant to the second, such as `2026-05-11 09:30:00`.
    pub fn second_text(&self) -> (r: String)
        ensures
            r@ == instant_text(self@.0, self@.1, SECOND_PATTERN@),
    {
        proof {
            use_type_invariant(self);
        }
        format_instant(self.secs, self.nanos, SECOND_PATTERN)
    }

    /// The day of the instant, such as `2026-05-11`. Read as a date it gives
    /// the day back.
    pub fn date_text(&self) -> (r: String)
        ensures
            r@ == instant_text(self@.0, self@.1, DATE_PATTERN@),
            parsed_date(r@, DATE_PATTERN@) == Some(day_of(self@)),
            self@.0 < YEAR_10000 ==> forall|i: int|
                0 <= i < r@.len() ==> is_digit(#[trigger] r@[i]) || r@[i] == '-',
    {
        proof {
            use_type_invariant(self);
        }
        format_instant(self.secs, self.nanos, DATE_PATTERN)
    }
}

/// Whether the first of two instants is the later one.
pub open spec fn later(a: (int, int), b: (int, int)) -> bool {
    a.0 > b.0 || (a.0 == b.0 && a.1 > b.1)
}

/// The day that an instant falls on, counted from 1970-01-01.
pub open spec fn day_of(instant: (int, int)) -> int {
    instant.0 / (DAY_SECONDS as int)
}

/// The first instant of a day.
pub open spec fn midnight(day: int) -> (int, int) {
    (day * DAY_SECONDS, 0)
}

/// What `chrono` writes for an instant in UTC under a `strftime` pattern.
pub uninterp spec fn instant_text(secs: int, nanos: int, pattern: Seq<char>) -> Seq<char>;

/// What `chrono` writes for a day under a `strftime` pattern.
pub uninterp spec fn day_text(day: int, pattern: Seq<char>) -> Seq<char>;

/// The day that `chrono` reads from a text under a `strftime` pattern, if it
/// reads one.
pub uninterp spec fn parsed_date(text: Seq<char>, pattern: Seq<char>) -> Option<int>;

/// `chrono::Utc::now`: the clock of the machine. Of the instant it is claimed only
/// that it does not lie before 1970: a clock set earlier makes the call panic.
#[verifier::external_body]
pub(crate) fn utc_now() -> (r: Timestamp)
    ensures
        !later((0, 0), r@),
{
    let now = chrono::Utc::now();
    Timestamp { secs: now.timestamp(), nanos: now.timestamp_subsec_nanos() }
}

/// `chrono::DateTime::format` on an instant in UTC. The text depends on the
/// instant and the pattern alone; written as a date, it reads back as the day
/// of the instant, and before the year 10000 it is made of digits and hyphens.
#[verifier::external_body]
fn format_instant(secs: i64, nanos: u32, pattern: &str) -> (r: String)
    requires
        valid_instant(secs as int, nanos as int),
        pattern@ == MINUTE_PATTERN@ || pattern@ == SECOND_PATTERN@ || pattern@ == DATE_PATTERN@,
    ensures
        r@ == instant_text(secs as int, nanos as int, pattern@),
        pattern@ == DATE_PATTERN@ ==> parsed_date(r@, DATE_PATTERN@) == Some(
            day_of((secs as int, nanos as int)),
        ),
        pattern@ == DATE_PATTERN@ && secs < YEAR_10000 ==> forall|i: int|
            0 <= i < r@.len() ==> is_digit(#[trigger] r@[i]) || r@[i] == '-',
{
    chrono::DateTime::from_timestamp(secs, nanos).expect("an instant").format(pattern).to_string()
}

/// `chrono::NaiveDate::format`. The text depends on the day and the pattern
/// alone; written as a date, it reads back as the same day.
#[verifier::external_body]
pub(crate) fn format_day(day: i32, pattern: &str) -> (r: String)
    requires
        MIN_DAY <= day <= MAX_DAY,
        pattern@ == DATE_PATTERN@ || pattern@ == COMPACT_DATE_PATTERN@,
    ensures
        r@ == day_text(day as int, pattern@),
        pattern@ == DATE_PATTERN@ ==> parsed_date(r@, DATE_PATTERN@) == Some(day as int),
{
    chrono::NaiveDate::from_epoch_days(day).expect("a day").format(pattern).to_string()
}

/// `chrono::NaiveDate::parse_from_str`. What is read, and whether anything is,
/// depends on the text and the pattern alone; a day that is read can be
/// represented.
#[verifier::external_body]
pub(crate) fn parse_day(text: &str, pattern: &str) -> (r: Option<i32>)
    ensures
        r is Some <==> parsed_date(text@, pattern@) is Some,
        r matches Some(day) ==> parsed_date(text@, pattern@) == Some(day as int) && MIN_DAY <= day
            <= MAX_DAY,
{
    match chrono::NaiveDate::parse_from_str(text, pattern) {
        Ok(date) => Some(date.to_epoch_days()),
        Err(_) => None,
    }
}

/// `chrono::NaiveDate::succ_opt`: the next day, unless the day is the last that
/// can be represented.
#[verifier::external_body]
pub(crate) fn next_day(day: i32) -> (r: Option<i32>)
    requires
        MIN_DAY <= day <= MAX_DAY,
    ensures
        r == if day < MAX_DAY { Some((day + 1) as i32) } else { None },
{
    match chrono::NaiveDate::from_epoch_days(day).expect("a day").succ_opt() {
        Some(date) => Some(date.to_epoch_days()),
        None => None,
    }
}

/// `chrono::NaiveDate::and_hms_opt` at 00:00:00, taken as a local time of UTC
/// by `chrono::TimeZone::from_local_datetime`: the first instant of the day.
#[verifier::external_body]
pub(crate) fn midnight_utc(day: i32) -> (r: Timestamp)
    requires
        MIN_DAY <= day <= MAX_DAY,
    ensures
        r@ == midnight(day as int),
{
    let date = chrono::NaiveDate::from_epoch_days(day).expect("a day");
    let start = date.and_hms_opt(0, 0, 0).expect("00:00 is valid");
    let instant = chrono::Utc.from_local_datetime(&start).single().expect("UTC has no DST");
    Timestamp { secs: instant.timestamp(), nanos: instant.timestamp_subsec_nanos() }
}

/// An instant is not before the first instant of a day if and only if its own day
/// is that day or a later one.
pub proof fn law_since_midnight(instant: (int, int), day: int)
    requires
        instant.1 >= 0,
    ensures
        !later(midnight(day), instant) <==> day <= day_of(instant),
{
}

/// An instant lies between the first instant of one day and the first instant
/// of the day after another if and only if its own day is one of the days from
/// the first to the second.
pub proof fn law_whole_days(instant: (int, int), first: int, last: int)
    requires
        instant.1 >= 0,
    ensures
        (!later(midnight(first), instant) && later(midnight(last + 1), instant)) <==> first
            <= day_of(instant) <= last,
{
}

/// An instant comes after another if and only if its second does, or the seconds
/// are the same and its nanosecond does: of two instants one is later, unless they
/// are the same.
pub proof fn law_instants_are_ordered(a: (int, int), b: (int, int), c: (int, int))
    ensures
        a.0 > b.0 ==> later(a, b),
        a.0 == b.0 ==> (later(a, b) <==> a.1 > b.1),
        a.0 < b.0 ==> !later(a, b),
        later(a, b) || later(b, a) <==> a != b,
        later(a, b) && later(b, c) ==> later(a, c),
{
}

/// Two numbers denote an instant if and only if the second lies on a day that can
/// be represented and the nanoseconds fill up one second, or two in the last
/// second of a minute.
pub proof fn law_numbers_that_denote_instants(secs: int, nanos: int)
    ensures
        valid_instant(secs, nanos) <==> -96465292 <= secs / 86400 <= 95026236 && 0 <= nanos && (
        nanos < 1_000_000_000 || (nanos < 2_000_000_000 && secs % 60 == 59)),
{
}

}
