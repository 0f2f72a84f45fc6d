//! Points in time, as snapshot names encode them.

use vstd::prelude::*;
use chrono::{DateTime, FixedOffset};

verus! {

/// A point in time together with the offset from UTC in which it is written:
/// seconds since the start of 1970 in UTC, nanoseconds since that second
/// began, and the seconds by which local time is ahead of UTC.
#[derive(Clone, Copy, Debug, PartialEq, Eq, Structural)]
pub struct Timestamp {
    pub secs: i64,
    pub nanos: u32,
    pub offset: i32,
}

/// The seconds of one day.
pub const DAY: u128 = 86_400;

/// A multiple of a day beyond the reach of any sum of seconds and offset.
pub const DAYS_BEFORE: u128 = 1_000_000_000_000_000;

impl Timestamp {
    /// Whether `self` is a later point in time than `other`, whatever the
    /// offsets are.
    pub open spec fn is_after(self, other: Timestamp) -> bool {
        self.secs > other.secs || (self.secs == other.secs && self.nanos > other.nanos)
    }

    /// The day of the calendar on which the point in time falls where local
    /// time has the timestamp's offset, counted from the first day of 1970.
    pub open spec fn local_day(self) -> int {
        (self.secs + self.offset) / 86_400
    }

    /// The point in time one second earlier, in the same offset.
    pub open spec fn second_before(self) -> Timestamp {
        Timestamp { secs: (self.secs - 1) as i64, nanos: self.nanos, offset: self.offset }
    }

    pub fn later_than(&self, other: &Timestamp) -> (later: bool)
        ensures
            later == self.is_after(*other),
    {
        self.secs > other.secs || (self.secs == other.secs && self.nanos > other.nanos)
    }

    fn shifted_day(&self) -> (day: u128)
        ensures
            day == self.local_day() + DAYS_BEFORE,
    {
        let local: i128 = self.secs as i128 + self.offset as i128;
        let shifted: u128 = (local + (DAYS_BEFORE * DAY) as i128) as u128;
        assert((local + DAYS_BEFORE * DAY) / 86_400 == local / 86_400 + DAYS_BEFORE)
            by (nonlinear_arith)
            requires
                DAYS_BEFORE == 1_000_000_000_000_000,
                DAY == 86_400,
        ;
        shifted / DAY
    }

    /// Whether both points in time fall on the same day of the calendar, each
    /// seen in its own offset.
    pub fn same_local_day(&self, other: &Timestamp) -> (same: bool)
        ensures
            same == (self.local_day() == other.local_day()),
    {
        self.shifted_day() == other.shifted_day()
    }

    /// The point in time one second earlier, if it can be written.
    pub fn one_second_earlier(&self) -> (earlier: Option<Timestamp>)
        ensures
            earlier == if self.secs > i64::MIN {
                Some(self.second_before())
            } else {
                None
            },
    {
        if self.secs > i64::MIN {
            Some(Timestamp { secs: self.secs - 1, nanos: self.nanos, offset: self.offset })
        } else {
            None
        }
    }
}

/// What `chrono::DateTime::parse_from_str` reads from `name` under the
/// pattern `date_format`, or `None` where it refuses the name.
pub uninterp spec fn parsed_timestamp(name: Seq<char>, date_format: Seq<char>) -> Option<Timestamp>;

/// `chrono::DateTime::parse_from_str` reads a date, a time and an offset from
/// a text under a pattern, or fails. The contract names what it reads; the
/// body hands out the point in time as its Unix seconds, the nanoseconds of
/// the second and the offset's seconds east of UTC.
#[verifier::external_body]
pub(crate) fn parse_timestamp(name: &str, date_format: &str) -> (stamp: Option<Timestamp>)
    ensures
        stamp == parsed_timestamp(name@, date_format@),
{
    match DateTime::parse_from_str(name, date_format) {
        Ok(t) => Some(
            Timestamp {
                secs: t.timestamp(),
                nanos: t.timestamp_subsec_nanos(),
                offset: t.offset().local_minus_utc(),
            },
        ),
        Err(_) => None,
    }
}

/// What `chrono::DateTime::format` writes for `stamp` under the pattern
/// `date_format`, or `None` where the timestamp is beyond what chrono can
/// hold or the pattern cannot be written.
pub uninterp spec fn formatted_timestamp(stamp: Timestamp, date_format: Seq<char>) -> Option<
    Seq<char>,
>;

/// `chrono::DateTime::format` writes a point in time under a pattern, in the
/// offset of the value. The contract names what it writes. The body builds
/// the value from the timestamp's numbers first; where chrono refuses them, or
/// fails to write the pattern, the result is `None`.
#[verifier::external_body]
pub(crate) fn format_timestamp(stamp: Timestamp, date_format: &str) -> (text: Option<String>)
    ensures
        text is Some == formatted_timestamp(stamp, date_format@) is Some,
        text matches Some(t) ==> formatted_timestamp(stamp, date_format@) == Some(t@),
{
    let zone = FixedOffset::east_opt(stamp.offset)?;
    let instant = DateTime::from_timestamp(stamp.secs, stamp.nanos)?;
    let mut text = String::new();
    match instant.with_timezone(&zone).format(date_format).write_to(&mut text) {
        Ok(()) => Some(text),
        Err(_) => None,
    }
}

} // verus!
