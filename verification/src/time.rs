//! Instants, spans and calendar dates.

pub mod laws;

use chrono::{Datelike, Timelike};
use vstd::prelude::*;

verus! {

/// Nanoseconds in a second.
pub const NANOS_PER_SECOND: i128 = 1_000_000_000;

/// An instant of Coordinated Universal Time.
#[derive(Debug, Clone, Copy, PartialEq, Eq, Structural)]
pub struct UtcTime {
    /// Seconds since 1970-01-01T00:00:00Z.
    pub seconds: i64,
    /// Nanoseconds after that second.
    pub nanos: u32,
}

/// A span of time.
#[derive(Debug, Clone, Copy, PartialEq, Eq, Structural)]
pub struct TimeSpan {
    /// Whole seconds.
    pub seconds: i64,
    /// Nanoseconds on top of the whole seconds.
    pub nanos: u32,
}

/// A calendar date and a time of day, to the second.
#[derive(Debug, Clone, Copy, PartialEq, Eq, Structural)]
pub struct CivilTime {
    pub year: u16,
    pub month: u8,
    pub day: u8,
    pub hour: u8,
    pub minute: u8,
    pub second: u8,
}

impl UtcTime {
    /// Nanoseconds since the epoch.
    pub open spec fn instant(self) -> int {
        self.seconds * 1_000_000_000 + self.nanos
    }

    /// Nanoseconds since the epoch.
    pub fn as_nanos(&self) -> (r: i128)
        ensures
            r == self.instant(),
            -9_300_000_000_000_000_000_000_000_000 < r < 9_300_000_000_000_000_000_000_000_000,
    {
        self.seconds as i128 * NANOS_PER_SECOND + self.nanos as i128
    }

    /// Whether this instant is later than `other`.
    pub fn is_after(&self, other: &UtcTime) -> (r: bool)
        ensures
            r == (self.instant() > other.instant()),
    {
        self.as_nanos() > other.as_nanos()
    }

    /// The current time, by `chrono::Utc::now`. Nothing is claimed of it.
    #[verifier::external_body]
    pub(crate) fn now() -> (r: UtcTime) {
        let now = chrono::Utc::now();
        UtcTime { seconds: now.timestamp(), nanos: now.timestamp_subsec_nanos() }
    }
}

impl TimeSpan {
    /// The length of the span in nanoseconds.
    pub open spec fn length(self) -> int {
        self.seconds * 1_000_000_000 + self.nanos
    }

    /// The length of the span in nanoseconds.
    pub fn as_nanos(&self) -> (r: i128)
        ensures
            r == self.length(),
            -9_300_000_000_000_000_000_000_000_000 < r < 9_300_000_000_000_000_000_000_000_000,
    {
        self.seconds as i128 * NANOS_PER_SECOND + self.nanos as i128
    }

    /// A span of whole seconds.
    pub fn from_seconds(seconds: i64) -> (r: TimeSpan)
        ensures
            r.length() == seconds * 1_000_000_000,
            r == (TimeSpan { seconds, nanos: 0 }),
    {
        TimeSpan { seconds, nanos: 0 }
    }
}

/// Whether `year` has a 29 February.
pub open spec fn is_leap_year(year: int) -> bool {
    year % 4 == 0 && (year % 100 != 0 || year % 400 == 0)
}

/// The number of days in a month.
pub open spec fn days_in_month(year: int, month: int) -> int {
    if month == 2 {
        if is_leap_year(year) { 29 } else { 28 }
    } else if month == 4 || month == 6 || month == 9 || month == 11 {
        30
    } else {
        31
    }
}

/// Days from 1970-01-01 to the given date of the proleptic Gregorian calendar.
/// Years are counted from March, so that a leap day ends its year.
pub open spec fn days_from_civil(year: int, month: int, day: int) -> int {
    let y = if month <= 2 { year - 1 } else { year };
    let m = (month + 9) % 12;
    365 * y + y / 4 - y / 100 + y / 400 + (153 * m + 2) / 5 + day - 1 - 719_468
}

impl CivilTime {
    /// The date exists in the calendar, in a year of four digits, and the time of
    /// day exists.
    pub open spec fn valid(self) -> bool {
        &&& self.year <= 9999
        &&& 1 <= self.month <= 12
        &&& 1 <= self.day <= days_in_month(self.year as int, self.month as int)
        &&& self.hour <= 23
        &&& self.minute <= 59
        &&& self.second <= 59
    }

    /// Seconds from the epoch to this time.
    pub open spec fn epoch_seconds(self) -> int {
        days_from_civil(self.year as int, self.month as int, self.day as int) * 86_400
            + self.hour * 3_600 + self.minute * 60 + self.second
    }

    /// Whether the date and the time of day exist.
    pub fn is_valid(&self) -> (r: bool)
        ensures
            r == self.valid(),
    {
        if self.year > 9999 || self.month < 1 || self.month > 12 || self.day < 1 {
            return false;
        }
        let leap: bool = self.year % 4 == 0 && (self.year % 100 != 0 || self.year % 400 == 0);
        let days: u8 = if self.month == 2 {
            if leap { 29 } else { 28 }
        } else if self.month == 4 || self.month == 6 || self.month == 9 || self.month == 11 {
            30
        } else {
            31
        };
        self.day <= days && self.hour <= 23 && self.minute <= 59 && self.second <= 59
    }

    /// Seconds from the epoch, by `chrono::DateTime::parse_from_rfc3339` on the
    /// text of the date. Claimed: an existing date gives the number of seconds
    /// that the Gregorian calendar puts between the epoch and it.
    #[verifier::external_body]
    pub(crate) fn to_epoch_seconds(&self) -> (r: i64)
        requires
            self.valid(),
        ensures
            r == self.epoch_seconds(),
    {
        let text = format!(
            "{:04}-{:02}-{:02}T{:02}:{:02}:{:02}Z",
            self.year, self.month, self.day, self.hour, self.minute, self.second
        );
        chrono::DateTime::parse_from_rfc3339(&text).expect("existing date").timestamp()
    }

    /// The calendar time of an instant, by `chrono::DateTime::from_timestamp` and
    /// the accessors of its fields. Claimed: for an instant of the years 1970 to
    /// 9999 it is an existing date of those years whose distance from the epoch is
    /// the given number of seconds.
    #[verifier::external_body]
    pub(crate) fn from_epoch_seconds(seconds: i64) -> (r: CivilTime)
        requires
            0 <= seconds <= 253_402_300_799,
        ensures
            r.valid(),
            r.year >= 1970,
            r.epoch_seconds() == seconds,
    {
        let t = chrono::DateTime::from_timestamp(seconds, 0).expect("instant in range");
        CivilTime {
            year: t.year() as u16,
            month: t.month() as u8,
            day: t.day() as u8,
            hour: t.hour() as u8,
            minute: t.minute() as u8,
            second: t.second() as u8,
        }
    }

    /// The instant at the start of this second.
    pub fn to_utc(&self) -> (r: UtcTime)
        requires
            self.valid(),
        ensures
            r == (UtcTime { seconds: self.epoch_seconds() as i64, nanos: 0 }),
            r.instant() == self.epoch_seconds() * 1_000_000_000,
    {
        let seconds: i64 = self.to_epoch_seconds();
        UtcTime { seconds, nanos: 0 }
    }
}

/// The number of a decimal digit character.
pub open spec fn digit_value(b: u8) -> int {
    b - 0x30
}

/// Whether a byte is a decimal digit character.
pub open spec fn is_digit(b: u8) -> bool {
    0x30 <= b <= 0x39
}

/// The number of two digit characters of `s` from `i` on.
pub open spec fn two_digits(s: Seq<u8>, i: int) -> int {
    digit_value(s[i]) * 10 + digit_value(s[i + 1])
}

/// The date that the text `YYYYMMDDhhmmssZ` names, where it exists.
pub open spec fn generalized_time(s: Seq<u8>) -> Option<CivilTime> {
    if s.len() == 15 && s[14] == 0x5A && (forall|i: int| 0 <= i < 14 ==> is_digit(#[trigger] s[i])) {
        let c = CivilTime {
            year: (two_digits(s, 0) * 100 + two_digits(s, 2)) as u16,
            month: two_digits(s, 4) as u8,
            day: two_digits(s, 6) as u8,
            hour: two_digits(s, 8) as u8,
            minute: two_digits(s, 10) as u8,
            second: two_digits(s, 12) as u8,
        };
        if c.valid() {
            Some(c)
        } else {
            None
        }
    } else {
        None
    }
}

fn read_two(s: &[u8], i: usize) -> (r: u8)
    requires
        i + 1 < s.len(),
        is_digit(s@[i as int]),
        is_digit(s@[i + 1]),
    ensures
        r == two_digits(s@, i as int),
        r <= 99,
{
    (s[i] - 0x30) * 10 + (s[i + 1] - 0x30)
}

/// Reads the text `YYYYMMDDhhmmssZ`.
pub fn parse_civil(s: &[u8]) -> (r: Option<CivilTime>)
    ensures
        r == generalized_time(s@),
{
    if s.len() != 15 || s[14] != 0x5A {
        return None;
    }
    let mut i: usize = 0;
    while i < 14
        invariant
            i <= 14,
            s.len() == 15,
            forall|j: int| 0 <= j < i ==> is_digit(#[trigger] s@[j]),
        decreases 14 - i,
    {
        if s[i] < 0x30 || s[i] > 0x39 {
            assert(!is_digit(s@[i as int]));
            return None;
        }
        i += 1;
    }
    let c = CivilTime {
        year: read_two(s, 0) as u16 * 100 + read_two(s, 2) as u16,
        month: read_two(s, 4),
        day: read_two(s, 6),
        hour: read_two(s, 8),
        minute: read_two(s, 10),
        second: read_two(s, 12),
    };
    if c.is_valid() {
        Some(c)
    } else {
        None
    }
}

/// The instant that a GeneralizedTime body names.
pub open spec fn generalized_instant(s: Seq<u8>) -> Option<UtcTime> {
    match generalized_time(s) {
        Some(c) => Some(UtcTime { seconds: c.epoch_seconds() as i64, nanos: 0 }),
        None => None,
    }
}

/// Reads the body of a GeneralizedTime as an instant.
pub fn parse_generalized_time(s: &[u8]) -> (r: Option<UtcTime>)
    ensures
        r == generalized_instant(s@),
{
    match parse_civil(s) {
        Some(c) => Some(c.to_utc()),
        None => None,
    }
}

} // verus!
