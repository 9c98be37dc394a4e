//! Dates and times sent as formatted strings.

use vstd::prelude::*;
use chrono::{Datelike, Timelike};
use crate::decode::{nullable_text, text_decoded, ExpectedFormat};
use crate::json::{Json, JsonValue};

verus! {

/// A calendar date.
#[derive(Clone, Copy, Debug, PartialEq, Eq, Structural)]
pub struct CalendarDate {
    pub year: i32,
    /// 1 to 12.
    pub month: u32,
    /// 1 to 31.
    pub day: u32,
}

impl CalendarDate {
    /// Month and day are within the bounds of a calendar.
    pub open spec fn wf(self) -> bool {
        1 <= self.month <= 12 && 1 <= self.day <= 31
    }
}

/// A time of day. A nanosecond of 1,000,000,000 or more marks a leap second.
#[derive(Clone, Copy, Debug, PartialEq, Eq, Structural)]
pub struct TimeOfDay {
    pub hour: u32,
    pub minute: u32,
    pub second: u32,
    pub nanosecond: u32,
}

impl TimeOfDay {
    /// Each part is within the bounds of a clock.
    pub open spec fn wf(self) -> bool {
        self.hour < 24 && self.minute < 60 && self.second < 60 && self.nanosecond < 2_000_000_000
    }
}

/// A date with a time of day, without a zone of its own.
#[derive(Clone, Copy, Debug, PartialEq, Eq, Structural)]
pub struct Timestamp {
    pub date: CalendarDate,
    pub time: TimeOfDay,
}

impl Timestamp {
    /// Date and time are well-formed.
    pub open spec fn wf(self) -> bool {
        self.date.wf() && self.time.wf()
    }
}

/// The date that `chrono::NaiveDate::parse_from_str` reads from `text` under
/// `format`; `None` where it reports an error.
pub uninterp spec fn chrono_date(text: Seq<char>, format: Seq<char>) -> Option<CalendarDate>;

/// The time that `chrono::NaiveTime::parse_from_str` reads from `text` under
/// `format`; `None` where it reports an error.
pub uninterp spec fn chrono_time(text: Seq<char>, format: Seq<char>) -> Option<TimeOfDay>;

/// The timestamp that `chrono::NaiveDateTime::parse_from_str` reads from
/// `text` under `format`; `None` where it reports an error.
pub uninterp spec fn chrono_timestamp(text: Seq<char>, format: Seq<char>) -> Option<Timestamp>;

/// The instant that `chrono::DateTime::parse_from_rfc3339` reads from `text`,
/// as date and time in UTC; `None` where it reports an error.
pub uninterp spec fn chrono_rfc3339_utc(text: Seq<char>) -> Option<Timestamp>;

/// Calls `chrono::NaiveDate::parse_from_str`.
///
/// Trusted: the result is what chrono reads, by year, month and day; chrono
/// numbers months from 1 to 12 and days from 1 to 31.
#[verifier::external_body]
fn parse_date(text: &str, format: &str) -> (parsed: Option<CalendarDate>)
    ensures
        parsed == chrono_date(text@, format@),
        parsed matches Some(date) ==> date.wf(),
{
    chrono::NaiveDate::parse_from_str(text, format).ok().map(
        |d| CalendarDate { year: d.year(), month: d.month(), day: d.day() },
    )
}

/// Calls `chrono::NaiveTime::parse_from_str`.
///
/// Trusted: the result is what chrono reads, by hour, minute, second and
/// nanosecond; chrono keeps hours under 24, minutes and seconds under 60 and
/// nanoseconds under two billion.
#[verifier::external_body]
fn parse_time(text: &str, format: &str) -> (parsed: Option<TimeOfDay>)
    ensures
        parsed == chrono_time(text@, format@),
        parsed matches Some(time) ==> time.wf(),
{
    chrono::NaiveTime::parse_from_str(text, format).ok().map(
        |t| TimeOfDay {
            hour: t.hour(),
            minute: t.minute(),
            second: t.second(),
            nanosecond: t.nanosecond(),
        },
    )
}

/// Calls `chrono::NaiveDateTime::parse_from_str`.
///
/// Trusted: the result is what chrono reads, by the parts of its date and of
/// its time, each within chrono's bounds.
#[verifier::external_body]
fn parse_timestamp(text: &str, format: &str) -> (parsed: Option<Timestamp>)
    ensures
        parsed == chrono_timestamp(text@, format@),
        parsed matches Some(timestamp) ==> timestamp.wf(),
{
    chrono::NaiveDateTime::parse_from_str(text, format).ok().map(
        |d| Timestamp {
            date: CalendarDate { year: d.year(), month: d.month(), day: d.day() },
            time: TimeOfDay {
                hour: d.hour(),
                minute: d.minute(),
                second: d.second(),
                nanosecond: d.nanosecond(),
            },
        },
    )
}

/// Calls `chrono::DateTime::parse_from_rfc3339` and moves the instant to UTC
/// with `DateTime::with_timezone`.
///
/// Trusted: the result is the instant that chrono reads, by the parts of its
/// date and time in UTC, each within chrono's bounds.
#[verifier::external_body]
fn parse_rfc3339(text: &str) -> (parsed: Option<Timestamp>)
    ensures
        parsed == chrono_rfc3339_utc(text@),
        parsed matches Some(timestamp) ==> timestamp.wf(),
{
    chrono::DateTime::parse_from_rfc3339(text).ok().map(|d| d.with_timezone(&chrono::Utc)).map(
        |d| Timestamp {
            date: CalendarDate { year: d.year(), month: d.month(), day: d.day() },
            time: TimeOfDay {
                hour: d.hour(),
                minute: d.minute(),
                second: d.second(),
                nanosecond: d.nanosecond(),
            },
        },
    )
}

/// The format of a date: `YYYY-MM-DD`.
pub const DATE_FORMAT: &'static str = "%Y-%m-%d";

/// The format of a timestamp without zone: `YYYY-MM-DD HH:MM:SS[.fraction]`.
pub const DATETIME_FORMAT: &'static str = "%Y-%m-%d %H:%M:%S%.f";

/// The format of a time of day: `HH:MM:SS[.fraction]`.
pub const TIME_FORMAT: &'static str = "%H:%M:%S%.f";

/// The date that a text of the form `YYYY-MM-DD` spells.
pub open spec fn date_of_text(text: Seq<char>) -> Option<CalendarDate> {
    chrono_date(text, DATE_FORMAT@)
}

/// The timestamp that a text of the form `YYYY-MM-DD HH:MM:SS[.fraction]`
/// spells.
pub open spec fn timestamp_of_text(text: Seq<char>) -> Option<Timestamp> {
    chrono_timestamp(text, DATETIME_FORMAT@)
}

/// The time that a text of the form `HH:MM:SS[.fraction]` spells.
pub open spec fn time_of_text(text: Seq<char>) -> Option<TimeOfDay> {
    chrono_time(text, TIME_FORMAT@)
}

/// What a nullable date decodes to.
pub open spec fn date_strategy(value: JsonValue) -> Result<Option<CalendarDate>, ExpectedFormat> {
    nullable_text(value, |t: Seq<char>| date_of_text(t), ExpectedFormat::Date)
}

/// What a nullable timestamp without zone decodes to.
pub open spec fn datetime_strategy(value: JsonValue) -> Result<Option<Timestamp>, ExpectedFormat> {
    nullable_text(value, |t: Seq<char>| timestamp_of_text(t), ExpectedFormat::DateTime)
}

/// What a nullable timestamp with zone decodes to.
pub open spec fn timestamptz_strategy(value: JsonValue) -> Result<
    Option<Timestamp>,
    ExpectedFormat,
> {
    nullable_text(value, |t: Seq<char>| chrono_rfc3339_utc(t), ExpectedFormat::TimestampTz)
}

/// What a nullable time of day decodes to.
pub open spec fn time_strategy(value: JsonValue) -> Result<Option<TimeOfDay>, ExpectedFormat> {
    nullable_text(value, |t: Seq<char>| time_of_text(t), ExpectedFormat::Time)
}

/// Decodes a nullable date: `null` is absent, a string of the form
/// `YYYY-MM-DD` is that date, anything else fails.
pub fn from_str_to_naive_date(value: &Json) -> (decoded: Result<
    Option<CalendarDate>,
    ExpectedFormat,
>)
    ensures
        decoded == date_strategy(value@),
        decoded matches Ok(Some(date)) ==> date.wf(),
{
    match value {
        Json::Null => Ok(None),
        Json::String(text) => text_decoded(
            parse_date(text.as_str(), DATE_FORMAT),
            ExpectedFormat::Date,
        ),
        _ => Err(ExpectedFormat::Date),
    }
}

/// Decodes a nullable timestamp without zone: `null` is absent, a string of
/// the form `YYYY-MM-DD HH:MM:SS[.fraction]` is that timestamp, anything else
/// fails.
pub fn from_str_to_naive_datetime(value: &Json) -> (decoded: Result<
    Option<Timestamp>,
    ExpectedFormat,
>)
    ensures
        decoded == datetime_strategy(value@),
        decoded matches Ok(Some(timestamp)) ==> timestamp.wf(),
{
    match value {
        Json::Null => Ok(None),
        Json::String(text) => text_decoded(
            parse_timestamp(text.as_str(), DATETIME_FORMAT),
            ExpectedFormat::DateTime,
        ),
        _ => Err(ExpectedFormat::DateTime),
    }
}

/// Decodes a nullable timestamp with zone: `null` is absent, an RFC 3339
/// string is its instant in UTC, anything else fails.
pub fn from_str_to_datetime(value: &Json) -> (decoded: Result<Option<Timestamp>, ExpectedFormat>)
    ensures
        decoded == timestamptz_strategy(value@),
        decoded matches Ok(Some(timestamp)) ==> timestamp.wf(),
{
    match value {
        Json::Null => Ok(None),
        Json::String(text) => text_decoded(
            parse_rfc3339(text.as_str()),
            ExpectedFormat::TimestampTz,
        ),
        _ => Err(ExpectedFormat::TimestampTz),
    }
}

/// Decodes a nullable time of day: `null` is absent, a string of the form
/// `HH:MM:SS[.fraction]` is that time, anything else fails.
pub fn from_str_to_naive_time(value: &Json) -> (decoded: Result<
    Option<TimeOfDay>,
    ExpectedFormat,
>)
    ensures
        decoded == time_strategy(value@),
        decoded matches Ok(Some(time)) ==> time.wf(),
{
    match value {
        Json::Null => Ok(None),
        Json::String(text) => text_decoded(
            parse_time(text.as_str(), TIME_FORMAT),
            ExpectedFormat::Time,
        ),
        _ => Err(ExpectedFormat::Time),
    }
}

} // verus!
