//! Calendar timestamps, and the readings of them that chrono performs.
use chrono::{Datelike, Timelike};
use vstd::prelude::*;

verus! {

/// A calendar date and time of day, as read from a media file.
#[derive(Debug, Clone, Copy, PartialEq, Eq, Structural)]
pub struct Timestamp {
    pub year: i32,
    pub month: u32,
    pub day: u32,
    pub hour: u32,
    pub minute: u32,
    pub second: u32,
}

impl Timestamp {
    /// Every field lies in the range of a calendar date and time of day.
    pub open spec fn wf(&self) -> bool {
        1 <= self.month <= 12 && 1 <= self.day <= 31 && self.hour < 24 && self.minute < 60
            && self.second < 60
    }
}

/// What chrono's `NaiveDateTime::parse_from_str` reads from a text and a format,
/// or `None` where it rejects the text.
pub uninterp spec fn naive_parse_of(s: Seq<char>, fmt: Seq<char>) -> Option<Timestamp>;

/// The local date and time that chrono's `DateTime::parse_from_rfc3339` reads
/// from a text, or `None` where it rejects the text.
pub uninterp spec fn rfc3339_local_of(s: Seq<char>) -> Option<Timestamp>;

/// The UTC date and time that chrono's `DateTime::from_timestamp` gives for a
/// count of seconds and nanoseconds since the Unix epoch, or `None` where it is
/// out of range.
pub uninterp spec fn utc_of_epoch(secs: int, nsecs: int) -> Option<Timestamp>;

/// Relies on chrono's `NaiveDateTime::parse_from_str`, and on chrono's accessors
/// returning a month in 1..=12, a day in 1..=31, an hour in 0..=23 and a minute and
/// second in 0..=59.
#[verifier::external_body]
pub(crate) fn parse_naive(s: &str, fmt: &str) -> (r: Option<Timestamp>)
    ensures
        r == naive_parse_of(s@, fmt@),
        r matches Some(t) ==> t.wf(),
{
    match chrono::NaiveDateTime::parse_from_str(s, fmt) {
        Ok(d) => Some(Timestamp {
            year: d.year(),
            month: d.month(),
            day: d.day(),
            hour: d.hour(),
            minute: d.minute(),
            second: d.second(),
        }),
        Err(_) => None,
    }
}

/// Relies on chrono's `DateTime::parse_from_rfc3339`, read at its own offset
/// (`naive_local`), and on the ranges of chrono's accessors.
#[verifier::external_body]
pub(crate) fn parse_rfc3339(s: &str) -> (r: Option<Timestamp>)
    ensures
        r == rfc3339_local_of(s@),
        r matches Some(t) ==> t.wf(),
{
    match chrono::DateTime::parse_from_rfc3339(s) {
        Ok(d) => {
            let n = d.naive_local();
            Some(Timestamp {
                year: n.year(),
                month: n.month(),
                day: n.day(),
                hour: n.hour(),
                minute: n.minute(),
                second: n.second(),
            })
        },
        Err(_) => None,
    }
}

/// Relies on chrono's `DateTime::from_timestamp` (read in UTC), and on the ranges
/// of chrono's accessors.
#[verifier::external_body]
pub(crate) fn from_epoch(secs: i64, nsecs: u32) -> (r: Option<Timestamp>)
    ensures
        r == utc_of_epoch(secs as int, nsecs as int),
        r matches Some(t) ==> t.wf(),
{
    match chrono::DateTime::from_timestamp(secs, nsecs) {
        Some(d) => Some(Timestamp {
            year: d.year(),
            month: d.month(),
            day: d.day(),
            hour: d.hour(),
            minute: d.minute(),
            second: d.second(),
        }),
        None => None,
    }
}

} // verus!
