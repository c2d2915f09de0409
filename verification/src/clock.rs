use chrono::{Datelike, TimeZone, Timelike};
use vstd::prelude::*;

verus! {

/// Seconds in a calendar day.
pub const SECS_PER_DAY: i64 = 86400;

/// Largest magnitude of a unix timestamp that every conversion here accepts; the calendar
/// that chrono implements covers a little more than this on both sides.
pub const TIMESTAMP_LIMIT: i64 = 8_000_000_000_000;

/// The first day number (days since 1970-01-01) that chrono represents: -262143-01-01.
pub const MIN_EPOCH_DAY: i32 = -96_465_292;

/// The last day number that chrono represents: 262142-12-31.
pub const MAX_EPOCH_DAY: i32 = 95_026_236;

/// A day number that chrono represents.
pub open spec fn day_in_range(day: int) -> bool {
    MIN_EPOCH_DAY <= day <= MAX_EPOCH_DAY
}

/// A wall-clock instant in some local time zone: the day (days since 1970-01-01, the
/// day number that chrono calls `to_epoch_days`) and the second within that day.
#[derive(Debug, Clone, Copy, PartialEq, Eq, Structural)]
pub struct LocalDateTime {
    pub day: i32,
    pub secs: u32,
}

/// The weekday of a day number, counted from Monday = 1 to Sunday = 7
/// (1970-01-01 was a Thursday).
pub open spec fn weekday_number(day: int) -> int {
    (day + 3) % 7 + 1
}

impl LocalDateTime {
    /// The second within the day is below a full day.
    pub open spec fn wf(self) -> bool {
        self.secs < 86400
    }

    /// Seconds since 1970-01-01 00:00:00 of the same zone: the order of instants.
    pub open spec fn stamp(self) -> int {
        self.day * 86400 + self.secs
    }

    /// Whether `self` is strictly before `other`.
    pub fn is_before(&self, other: &LocalDateTime) -> (b: bool)
        requires
            self.wf(),
            other.wf(),
        ensures
            b == (self.stamp() < other.stamp()),
    {
        self.day < other.day || (self.day == other.day && self.secs < other.secs)
    }

    /// The minute of the hour (0..59).
    pub fn minute(&self) -> (m: u32)
        ensures
            m == (self.secs / 60) % 60,
    {
        (self.secs / 60) % 60
    }

    /// The hour of the day.
    pub fn hour(&self) -> (h: u32)
        ensures
            h == self.secs / 3600,
    {
        self.secs / 3600
    }
}

/// A time of day as chrono holds it: whole seconds from midnight and the fraction of the
/// second in nanoseconds (a leap second shows as a fraction of a second or more).
#[derive(Debug, Clone, Copy, PartialEq, Eq, Structural)]
pub struct TimeOfDay {
    pub secs: u32,
    pub frac: u32,
}

/// chrono orders times of day by second, then by fraction.
pub open spec fn tod_lt(a: TimeOfDay, b: TimeOfDay) -> bool {
    a.secs < b.secs || (a.secs == b.secs && a.frac < b.frac)
}

/// `a` is not after `b`.
pub open spec fn tod_le(a: TimeOfDay, b: TimeOfDay) -> bool {
    !tod_lt(b, a)
}

/// The time of day at whole seconds from midnight.
pub open spec fn tod_at(secs: int) -> TimeOfDay {
    TimeOfDay { secs: secs as u32, frac: 0 }
}

impl TimeOfDay {
    /// Whether `self` is strictly before `other`.
    pub fn lt(&self, other: &TimeOfDay) -> (b: bool)
        ensures
            b == tod_lt(*self, *other),
    {
        self.secs < other.secs || (self.secs == other.secs && self.frac < other.frac)
    }

    /// Whether `self` is not after `other`.
    pub fn le(&self, other: &TimeOfDay) -> (b: bool)
        ensures
            b == tod_le(*self, *other),
    {
        !other.lt(self)
    }
}

/// chrono's `NaiveTime::parse_from_str(raw, "%H:%M:%S")`, taken as seconds from midnight
/// (`Timelike::num_seconds_from_midnight`) and `Timelike::nanosecond`; `None` where chrono
/// rejects the text.
pub uninterp spec fn chrono_time_of_day(raw: Seq<char>) -> Option<TimeOfDay>;

/// chrono's `NaiveDate::parse_from_str(raw, "%Y-%m-%d")`, taken as the day number
/// (`NaiveDate::to_epoch_days`); `None` where chrono rejects the text.
pub uninterp spec fn chrono_epoch_day(raw: Seq<char>) -> Option<i32>;

/// Calls `chrono::NaiveTime::parse_from_str(raw, "%H:%M:%S")`. The contract names the
/// result by the text alone and adds what chrono's representation gives: the whole
/// seconds are less than a day and the fraction less than two seconds. Which texts chrono
/// accepts is not restated.
#[verifier::external_body]
pub(crate) fn parse_time_of_day(raw: &str) -> (r: Option<TimeOfDay>)
    ensures
        r == chrono_time_of_day(raw@),
        r matches Some(t) ==> t.secs < 86400 && t.frac < 2_000_000_000,
{
    chrono::NaiveTime::parse_from_str(raw, "%H:%M:%S")
        .ok()
        .map(|t| TimeOfDay { secs: t.num_seconds_from_midnight(), frac: t.nanosecond() })
}

/// Calls `chrono::NaiveDate::parse_from_str(raw, "%Y-%m-%d")` and gives the parsed date as
/// its day number. The result is named by the text alone; which texts chrono accepts is
/// not restated.
#[verifier::external_body]
pub(crate) fn parse_epoch_day(raw: &str) -> (r: Option<i32>)
    ensures
        r == chrono_epoch_day(raw@),
        r matches Some(d) ==> day_in_range(d as int),
{
    chrono::NaiveDate::parse_from_str(raw, "%Y-%m-%d").ok().map(|d| d.to_epoch_days())
}

/// Calls `chrono::DateTime::from_timestamp(ts, 0)`, then `naive_utc()` and
/// `checked_add_signed(TimeDelta::seconds(offset_secs))`, and splits the local instant into
/// its day number and second of day. chrono computes these by Euclidean division of the
/// shifted timestamp by 86400; it gives `None` where the timestamp lies outside its
/// calendar (which reaches beyond `TIMESTAMP_LIMIT`) and where the shifted instant leaves it.
#[verifier::external_body]
pub(crate) fn shift_timestamp(ts: i64, offset_secs: i64) -> (r: Option<LocalDateTime>)
    requires
        -9_000_000_000_000_000 <= offset_secs <= 9_000_000_000_000_000,
    ensures
        r matches Some(l) ==> l.wf() && l.stamp() == ts + offset_secs && day_in_range(l.day as int),
        -TIMESTAMP_LIMIT <= ts <= TIMESTAMP_LIMIT && -TIMESTAMP_LIMIT <= ts + offset_secs
            <= TIMESTAMP_LIMIT ==> r is Some,
        day_in_range(ts / 86400) && day_in_range((ts + offset_secs) / 86400) ==> r is Some,
        !day_in_range(ts / 86400) ==> r is None,
{
    chrono::DateTime::from_timestamp(ts, 0)
        .and_then(|dt| dt.naive_utc().checked_add_signed(chrono::TimeDelta::seconds(offset_secs)))
        .map(|n| LocalDateTime { day: n.date().to_epoch_days(), secs: n.time().num_seconds_from_midnight() })
}

/// Calls `chrono::NaiveDate::from_epoch_days(day)` and `weekday().number_from_monday()`.
/// chrono's proleptic Gregorian calendar puts 1970-01-01 on a Thursday, so the result
/// follows the day number modulo 7.
#[verifier::external_body]
pub(crate) fn weekday_from_monday(day: i32) -> (w: u32)
    requires
        day_in_range(day as int),
    ensures
        w == weekday_number(day as int),
{
    chrono::NaiveDate::from_epoch_days(day).unwrap().weekday().number_from_monday()
}

/// Calls `chrono::FixedOffset::east_opt(secs)` and gives the offset's
/// `local_minus_utc()`: chrono accepts offsets strictly within one day.
#[verifier::external_body]
pub(crate) fn fixed_offset_secs(secs: i32) -> (r: Option<i32>)
    ensures
        r == (if -86400 < secs && secs < 86400 {
            Some(secs)
        } else {
            None::<i32>
        }),
{
    chrono::FixedOffset::east_opt(secs).map(|o| o.local_minus_utc())
}

/// Calls `chrono::FixedOffset::from_local_datetime` on a local instant given as a day
/// number and second of day, then `timestamp()`: with a fixed offset the local instant
/// maps to exactly one unix timestamp, the local seconds minus the offset. chrono finds
/// that instant only where it falls on a day of its calendar, which the caller ensures.
#[verifier::external_body]
pub(crate) fn local_to_timestamp(local: LocalDateTime, offset_secs: i32) -> (ts: i64)
    requires
        local.wf(),
        day_in_range(local.day as int),
        -86400 < offset_secs < 86400,
        day_in_range((local.stamp() - offset_secs) / 86400),
    ensures
        ts == local.stamp() - offset_secs,
{
    let offset = chrono::FixedOffset::east_opt(offset_secs).unwrap();
    let date = chrono::NaiveDate::from_epoch_days(local.day).unwrap();
    let time = chrono::NaiveTime::from_num_seconds_from_midnight_opt(local.secs, 0).unwrap();
    offset.from_local_datetime(&date.and_time(time)).single().unwrap().timestamp()
}

/// chrono's `Display` text of the `NaiveDateTime` on day number `day` at `secs` seconds
/// after midnight (`%Y-%m-%d %H:%M:%S` for years 0 to 9999).
pub uninterp spec fn chrono_datetime_text(day: i32, secs: u32) -> Seq<char>;

/// chrono's `Debug` text of the same `NaiveDateTime` (`%Y-%m-%dT%H:%M:%S` for years 0 to
/// 9999).
pub uninterp spec fn chrono_datetime_debug(day: i32, secs: u32) -> Seq<char>;

/// chrono's text of the same `NaiveDateTime` under the format `%Y%m%d%H%M%S`.
pub uninterp spec fn chrono_compact_stamp(day: i32, secs: u32) -> Seq<char>;

/// Builds chrono's `NaiveDateTime` of a local instant (`NaiveDate::from_epoch_days` and
/// `NaiveTime::from_num_seconds_from_midnight_opt`, both defined on such an instant) and
/// writes it with `to_string()`. The text is named by the instant alone.
#[verifier::external_body]
pub(crate) fn datetime_text(local: LocalDateTime) -> (s: String)
    requires
        local.wf(),
        day_in_range(local.day as int),
    ensures
        s@ == chrono_datetime_text(local.day, local.secs),
{
    let date = chrono::NaiveDate::from_epoch_days(local.day).unwrap();
    let time = chrono::NaiveTime::from_num_seconds_from_midnight_opt(local.secs, 0).unwrap();
    date.and_time(time).to_string()
}

/// Builds the same `NaiveDateTime` and writes it with `format!("{:?}", ..)`. The text is
/// named by the instant alone.
#[verifier::external_body]
pub(crate) fn datetime_debug(local: LocalDateTime) -> (s: String)
    requires
        local.wf(),
        day_in_range(local.day as int),
    ensures
        s@ == chrono_datetime_debug(local.day, local.secs),
{
    let date = chrono::NaiveDate::from_epoch_days(local.day).unwrap();
    let time = chrono::NaiveTime::from_num_seconds_from_midnight_opt(local.secs, 0).unwrap();
    format!("{:?}", date.and_time(time))
}

/// Builds the same `NaiveDateTime` and writes it with `format("%Y%m%d%H%M%S")`. The text is
/// named by the instant alone.
#[verifier::external_body]
pub(crate) fn compact_stamp(local: LocalDateTime) -> (s: String)
    requires
        local.wf(),
        day_in_range(local.day as int),
    ensures
        s@ == chrono_compact_stamp(local.day, local.secs),
{
    let date = chrono::NaiveDate::from_epoch_days(local.day).unwrap();
    let time = chrono::NaiveTime::from_num_seconds_from_midnight_opt(local.secs, 0).unwrap();
    date.and_time(time).format("%Y%m%d%H%M%S").to_string()
}

/// chrono's calendar year of the day number `day` (`NaiveDate::from_epoch_days` then
/// `Datelike::year`).
pub uninterp spec fn chrono_year(day: i32) -> i32;

/// chrono's day number of a calendar date (`NaiveDate::from_ymd_opt` then
/// `to_epoch_days`); `None` where chrono has no such date.
pub uninterp spec fn chrono_ymd_day(year: i32, month: u32, day: u32) -> Option<i32>;

/// Calls `chrono::NaiveDate::from_epoch_days(day)`, defined on every day number in
/// range, and gives its `year()`. The year is named by the day number alone.
#[verifier::external_body]
pub(crate) fn year_of_day(day: i32) -> (y: i32)
    requires
        day_in_range(day as int),
    ensures
        y == chrono_year(day),
{
    chrono::NaiveDate::from_epoch_days(day).unwrap().year()
}

/// Calls `chrono::NaiveDate::from_ymd_opt(year, month, day)` and gives the date as its day
/// number. The result is named by the three numbers alone; which dates exist is not
/// restated.
#[verifier::external_body]
pub(crate) fn ymd_day(year: i32, month: u32, day: u32) -> (r: Option<i32>)
    ensures
        r == chrono_ymd_day(year, month, day),
        r matches Some(d) ==> day_in_range(d as int),
{
    chrono::NaiveDate::from_ymd_opt(year, month, day).map(|d| d.to_epoch_days())
}

/// The text of chrono's error for `NaiveTime::parse_from_str(raw, "%H:%M:%S")`, or the
/// empty text where chrono accepts `raw`.
pub uninterp spec fn chrono_time_error(raw: Seq<char>) -> Seq<char>;

/// The text of chrono's error for `NaiveDate::parse_from_str(raw, "%Y-%m-%d")`, or the
/// empty text where chrono accepts `raw`.
pub uninterp spec fn chrono_date_error(raw: Seq<char>) -> Seq<char>;

/// Calls `chrono::NaiveTime::parse_from_str(raw, "%H:%M:%S")` and writes its error with
/// `to_string()` (the empty text when the time parses). The text is named by `raw` alone.
#[verifier::external_body]
pub(crate) fn time_parse_error(raw: &str) -> (e: String)
    ensures
        e@ == chrono_time_error(raw@),
{
    match chrono::NaiveTime::parse_from_str(raw, "%H:%M:%S") {
        Err(err) => err.to_string(),
        Ok(_) => String::new(),
    }
}

/// Calls `chrono::NaiveDate::parse_from_str(raw, "%Y-%m-%d")` and writes its error with
/// `to_string()` (the empty text when the date parses). The text is named by `raw` alone.
#[verifier::external_body]
pub(crate) fn date_parse_error(raw: &str) -> (e: String)
    ensures
        e@ == chrono_date_error(raw@),
{
    match chrono::NaiveDate::parse_from_str(raw, "%Y-%m-%d") {
        Err(err) => err.to_string(),
        Ok(_) => String::new(),
    }
}

/// chrono's `Display` text of the `NaiveDate` with day number `day` (`%Y-%m-%d` for years
/// 0 to 9999).
pub uninterp spec fn chrono_date_text(day: i32) -> Seq<char>;

/// Calls `chrono::NaiveDate::from_epoch_days(day)`, defined on every day number in range,
/// and writes it with `to_string()`. The text is named by the day number alone.
#[verifier::external_body]
pub(crate) fn date_text(day: i32) -> (s: String)
    requires
        day_in_range(day as int),
    ensures
        s@ == chrono_date_text(day),
{
    chrono::NaiveDate::from_epoch_days(day).unwrap().to_string()
}

} // verus!
