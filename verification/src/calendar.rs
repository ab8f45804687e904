//! The proleptic Gregorian calendar, and seconds since the epoch, which is
//! 1970-01-01T00:00:00 UTC.

use chrono::NaiveDate;
use vstd::prelude::*;

verus! {

/// Whether a year has a 29th of February.
pub open spec fn is_leap_year(year: int) -> bool {
    year % 4 == 0 && (year % 100 != 0 || year % 400 == 0)
}

/// The number of days of a year.
pub open spec fn days_in_year(year: int) -> int {
    if is_leap_year(year) {
        366
    } else {
        365
    }
}

/// The number of days of a month, for months 1 to 12.
pub open spec fn days_in_month(year: int, month: int) -> int {
    if month == 2 {
        if is_leap_year(year) {
            29
        } else {
            28
        }
    } else if month == 4 || month == 6 || month == 9 || month == 11 {
        30
    } else {
        31
    }
}

/// The number of days of a year that lie before the first of a month.
pub open spec fn days_before_month(year: int, month: int) -> int
    decreases month,
{
    if month <= 1 {
        0
    } else {
        days_before_month(year, month - 1) + days_in_month(year, month - 1)
    }
}

/// The number of leap years among the years 1 to `year - 1`; for a year
/// before 1, less the number of leap years from `year` to 0.
pub open spec fn leap_years_before(year: int) -> int {
    (year - 1) / 4 - (year - 1) / 100 + (year - 1) / 400
}

/// The number of days from 1 January 1970 to 1 January of a year, negative
/// for a year before 1970.
pub open spec fn days_before_year(year: int) -> int {
    365 * (year - 1970) + leap_years_before(year) - leap_years_before(1970)
}

/// The number of days from 1 January 1970 to a date.
pub open spec fn day_number(year: int, month: int, day: int) -> int {
    days_before_year(year) + days_before_month(year, month) + day - 1
}

/// Whether the calendar has a day of this number in this month.
pub open spec fn is_date(year: int, month: int, day: int) -> bool {
    1 <= month <= 12 && 1 <= day <= days_in_month(year, month)
}

/// Whether a day has this second, leap seconds aside.
pub open spec fn is_time(hour: int, minute: int, second: int) -> bool {
    0 <= hour < 24 && 0 <= minute < 60 && 0 <= second < 60
}

/// Whether the calendar has this moment, leap seconds aside.
pub open spec fn is_moment(
    year: int,
    month: int,
    day: int,
    hour: int,
    minute: int,
    second: int,
) -> bool {
    is_date(year, month, day) && is_time(hour, minute, second)
}

/// The number of seconds, leap seconds not counted, from the epoch to a
/// moment of the calendar in UTC.
pub open spec fn epoch_seconds(
    year: int,
    month: int,
    day: int,
    hour: int,
    minute: int,
    second: int,
) -> int {
    day_number(year, month, day) * 86400 + hour * 3600 + minute * 60 + second
}

/// The day after a date.
pub open spec fn next_day(year: int, month: int, day: int) -> (int, int, int) {
    if day < days_in_month(year, month) {
        (year, month, day + 1)
    } else if month < 12 {
        (year, month + 1, 1)
    } else {
        (year + 1, 1, 1)
    }
}

/// The epoch is second 0.
pub proof fn epoch_is_zero()
    ensures
        epoch_seconds(1970, 1, 1, 0, 0, 0) == 0,
{
}

/// From 1 January of a year to 1 January of the next it is as many days as
/// the year has.
pub proof fn year_has_its_days(year: int)
    ensures
        days_before_year(year + 1) == days_before_year(year) + days_in_year(year),
{
}

/// The twelve months of a year have between them the days of the year.
pub proof fn months_fill_the_year(year: int)
    ensures
        days_before_month(year, 12) + days_in_month(year, 12) == days_in_year(year),
{
    reveal_with_fuel(days_before_month, 13);
}

/// Each date is one day after the date before it. With the epoch at 0 this
/// settles the number of every date.
pub proof fn next_day_is_one_later(year: int, month: int, day: int)
    requires
        is_date(year, month, day),
    ensures
        ({
            let (y, m, d) = next_day(year, month, day);
            is_date(y, m, d) && day_number(y, m, d) == day_number(year, month, day) + 1
        }),
{
    if day >= days_in_month(year, month) && month == 12 {
        year_has_its_days(year);
        months_fill_the_year(year);
    }
}

/// `NaiveDate::from_ymd_opt`, then `NaiveDate::and_hms_opt`, then
/// `NaiveDateTime::and_utc` and `DateTime::timestamp`, all of `chrono`.
/// The first two give a value exactly where the calendar has the date and
/// the day has the time; the timestamp is then the number of non-leap
/// seconds from the epoch to that moment. The years are kept to those of
/// four digits, which `chrono` can all hold.
#[verifier::external_body]
pub(crate) fn utc_seconds(
    year: i32,
    month: u32,
    day: u32,
    hour: u32,
    minute: u32,
    second: u32,
) -> (moment: Option<i64>)
    requires
        0 <= year <= 9999,
    ensures
        match moment {
            Some(t) => is_moment(
                year as int,
                month as int,
                day as int,
                hour as int,
                minute as int,
                second as int,
            ) && t == epoch_seconds(
                year as int,
                month as int,
                day as int,
                hour as int,
                minute as int,
                second as int,
            ),
            None => !is_moment(
                year as int,
                month as int,
                day as int,
                hour as int,
                minute as int,
                second as int,
            ),
        },
{
    let date = NaiveDate::from_ymd_opt(year, month, day)?;
    let at = date.and_hms_opt(hour, minute, second)?;
    Some(at.and_utc().timestamp())
}

} // verus!
