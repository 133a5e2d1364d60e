//! What dates and times mean.

use vstd::prelude::*;

#[allow(unused_imports)]
use crate::time::{
    days_from_civil, days_in_month, generalized_instant, generalized_time, is_digit, two_digits,
    CivilTime, UtcTime,
};

verus! {

/// A number below one hundred as two digits.
pub open spec fn digits(n: int) -> Seq<u8> {
    seq![(0x30 + n / 10) as u8, (0x30 + n % 10) as u8]
}

/// A date and a time of day as they are written.
pub open spec fn written(c: CivilTime) -> Seq<u8> {
    digits(c.year as int / 100) + digits(c.year as int % 100) + digits(c.month as int) + digits(
        c.day as int,
    ) + digits(c.hour as int) + digits(c.minute as int) + digits(c.second as int) + seq![0x5Au8]
}

/// A date that exists is read back as it is written, and as the instant that the
/// calendar gives it.
pub proof fn law_date_read_back(c: CivilTime)
    requires
        c.valid(),
    ensures
        generalized_time(written(c)) == Some(c),
        generalized_instant(written(c)) matches Some(t) && t.nanos == 0,
{
    let s = written(c);
    assert(s.len() == 15);
    assert(s[0] == 0x30 + c.year as int / 100 / 10 && s[1] == 0x30 + c.year as int / 100 % 10);
    assert(s[2] == 0x30 + c.year as int % 100 / 10 && s[3] == 0x30 + c.year as int % 100 % 10);
    assert(s[4] == 0x30 + c.month as int / 10 && s[5] == 0x30 + c.month as int % 10);
    assert(s[6] == 0x30 + c.day as int / 10 && s[7] == 0x30 + c.day as int % 10);
    assert(s[8] == 0x30 + c.hour as int / 10 && s[9] == 0x30 + c.hour as int % 10);
    assert(s[10] == 0x30 + c.minute as int / 10 && s[11] == 0x30 + c.minute as int % 10);
    assert(s[12] == 0x30 + c.second as int / 10 && s[13] == 0x30 + c.second as int % 10);
    assert(s[14] == 0x5A);
    assert forall|i: int| 0 <= i < 14 implies is_digit(#[trigger] s[i]) by {
        assert(i == 0 || i == 1 || i == 2 || i == 3 || i == 4 || i == 5 || i == 6 || i == 7 || i
            == 8 || i == 9 || i == 10 || i == 11 || i == 12 || i == 13);
    }
    assert(two_digits(s, 0) == c.year as int / 100);
    assert(two_digits(s, 2) == c.year as int % 100);
    assert(two_digits(s, 4) == c.month);
    assert(two_digits(s, 6) == c.day);
    assert(two_digits(s, 8) == c.hour);
    assert(two_digits(s, 10) == c.minute);
    assert(two_digits(s, 12) == c.second);
}

/// What is read as a date is a date that exists, written as it is.
pub proof fn law_date_is_written(s: Seq<u8>)
    ensures
        generalized_time(s) matches Some(c) ==> c.valid() && s == written(c),
{
    if let Some(c) = generalized_time(s) {
        assert(is_digit(s[0]) && is_digit(s[1]) && is_digit(s[2]) && is_digit(s[3]));
        assert(is_digit(s[4]) && is_digit(s[5]) && is_digit(s[6]) && is_digit(s[7]));
        assert(is_digit(s[8]) && is_digit(s[9]) && is_digit(s[10]) && is_digit(s[11]));
        assert(is_digit(s[12]) && is_digit(s[13]));
        assert(s =~= written(c));
    }
}

/// Days are counted from the first of January 1970, one after the other: through the
/// month, from the last of a month to the first of the next, and from the last of
/// December to the first of January.
pub proof fn law_days_follow(year: int, month: int, day: int)
    requires
        1 <= month <= 12,
    ensures
        days_from_civil(1970, 1, 1) == 0,
        days_from_civil(year, month, day + 1) == days_from_civil(year, month, day) + 1,
        month < 12 ==> days_from_civil(year, month + 1, 1) == days_from_civil(
            year,
            month,
            days_in_month(year, month),
        ) + 1,
        days_from_civil(year + 1, 1, 1) == days_from_civil(year, 12, 31) + 1,
{
    assert(month == 1 || month == 2 || month == 3 || month == 4 || month == 5 || month == 6 || month
        == 7 || month == 8 || month == 9 || month == 10 || month == 11 || month == 12);
}

/// Every fourth year has a leap day, but of the hundredth years only every fourth.
pub proof fn law_leap_days(year: int)
    ensures
        days_in_month(year, 2) == 29 <==> year % 400 == 0 || (year % 4 == 0 && year % 100 != 0),
        days_in_month(year, 2) == 28 || days_in_month(year, 2) == 29,
        days_in_month(year, 1) == 31 && days_in_month(year, 3) == 31 && days_in_month(year, 4) == 30
            && days_in_month(year, 5) == 31 && days_in_month(year, 6) == 30 && days_in_month(
            year,
            7,
        ) == 31 && days_in_month(year, 8) == 31 && days_in_month(year, 9) == 30 && days_in_month(
            year,
            10,
        ) == 31 && days_in_month(year, 11) == 30 && days_in_month(year, 12) == 31,
{
}

/// Seconds of a day follow one another, and the days hold as many as there are.
pub proof fn law_seconds_of_a_day(c: CivilTime)
    ensures
        c.epoch_seconds() == days_from_civil(c.year as int, c.month as int, c.day as int) * 86_400
            + (c.hour * 60 + c.minute) * 60 + c.second,
        c.valid() ==> 0 <= c.epoch_seconds() - days_from_civil(
            c.year as int,
            c.month as int,
            c.day as int,
        ) * 86_400 < 86_400,
{
}

/// Instants are ordered by their seconds, and within a second by their nanoseconds.
pub proof fn law_instants(a: UtcTime, b: UtcTime)
    requires
        a.nanos < 1_000_000_000,
        b.nanos < 1_000_000_000,
    ensures
        a.instant() < b.instant() <==> a.seconds < b.seconds || (a.seconds == b.seconds && a.nanos
            < b.nanos),
{
}

} // verus!
