//! The fields that a timestamp's text gives, and the moment they name.

use crate::calendar::{epoch_seconds, is_moment, utc_seconds};
use crate::specifier::Specifier;
use vstd::prelude::*;

verus! {

/// What has been read of a timestamp so far. A field that the text did not
/// give is `None`.
#[derive(Clone, Copy, Debug, PartialEq, Eq)]
pub struct Fields {
    /// The full year.
    pub year: Option<u32>,
    /// The year divided by 100.
    pub century: Option<u32>,
    /// The year modulo 100.
    pub year_of_century: Option<u32>,
    /// The month, 1 for January.
    pub month: Option<u32>,
    /// The day of the month.
    pub day: Option<u32>,
    /// The hour of the day.
    pub hour: Option<u32>,
    /// The minute of the hour.
    pub minute: Option<u32>,
    /// The second of the minute.
    pub second: Option<u32>,
    /// Seconds since the epoch, given outright.
    pub epoch: Option<i64>,
}

/// Whether a field that may already hold a value can take `value`: it is
/// still empty, or holds that same value.
pub open spec fn agrees(slot: Option<u32>, value: int) -> bool {
    match slot {
        Some(held) => held == value,
        None => true,
    }
}

/// Whether a field that may already hold a value can take `value`.
fn can_take(slot: Option<u32>, value: u32) -> (free: bool)
    ensures
        free == agrees(slot, value as int),
{
    match slot {
        Some(held) => held == value,
        None => true,
    }
}

impl Fields {
    /// No field read yet.
    pub open spec fn blank() -> Fields {
        Fields {
            year: None,
            century: None,
            year_of_century: None,
            month: None,
            day: None,
            hour: None,
            minute: None,
            second: None,
            epoch: None,
        }
    }

    /// The fields with `value` entered for a specifier, or `None` where the
    /// field holds another value already: a template may name a field
    /// twice, and the text must then give it the same value twice. The
    /// names of a month go to the same field as its number. The fraction of
    /// a second is no field: its value is dropped.
    pub open spec fn put(self, s: Specifier, value: int) -> Option<Fields> {
        match s {
            Specifier::Year => if agrees(self.year, value) {
                Some(Fields { year: Some(value as u32), ..self })
            } else {
                None
            },
            Specifier::Century => if agrees(self.century, value) {
                Some(Fields { century: Some(value as u32), ..self })
            } else {
                None
            },
            Specifier::YearOfCentury => if agrees(self.year_of_century, value) {
                Some(Fields { year_of_century: Some(value as u32), ..self })
            } else {
                None
            },
            Specifier::Month | Specifier::MonthAbbrev | Specifier::MonthAbbrevAlt
            | Specifier::MonthName => if agrees(self.month, value) {
                Some(Fields { month: Some(value as u32), ..self })
            } else {
                None
            },
            Specifier::Day => if agrees(self.day, value) {
                Some(Fields { day: Some(value as u32), ..self })
            } else {
                None
            },
            Specifier::Hour => if agrees(self.hour, value) {
                Some(Fields { hour: Some(value as u32), ..self })
            } else {
                None
            },
            Specifier::Minute => if agrees(self.minute, value) {
                Some(Fields { minute: Some(value as u32), ..self })
            } else {
                None
            },
            Specifier::Second => if agrees(self.second, value) {
                Some(Fields { second: Some(value as u32), ..self })
            } else {
                None
            },
            Specifier::Epoch => match self.epoch {
                Some(held) => if held == value {
                    Some(self)
                } else {
                    None
                },
                None => Some(Fields { epoch: Some(value as i64), ..self }),
            },
            Specifier::Fraction => Some(self),
        }
    }

    /// The year that the fields name, if they name one between 0 and 9999.
    /// A full year stands for itself, and a century or a year of the
    /// century beside it must agree with it. A century and a year of the
    /// century make a year together. A year of the century alone is taken
    /// from 1970 to 2069. A century alone names no year. With none of the
    /// three the year is 1970.
    pub open spec fn calendar_year(self) -> Option<int> {
        match (self.year, self.century, self.year_of_century) {
            (Some(y), c, r) => if y <= 9999 && agrees(c, y as int / 100) && agrees(
                r,
                y as int % 100,
            ) {
                Some(y as int)
            } else {
                None
            },
            (None, Some(c), Some(r)) => if c <= 99 && r <= 99 {
                Some(c * 100 + r)
            } else {
                None
            },
            (None, Some(_), None) => None,
            (None, None, Some(r)) => if r >= 100 {
                None
            } else if r < 70 {
                Some(2000 + r)
            } else {
                Some(1900 + r)
            },
            (None, None, None) => Some(1970),
        }
    }

    /// The second of the minute as the calendar counts it: a second
    /// numbered 60 is a leap second, and counts as the second before it.
    pub open spec fn calendar_second(self) -> int {
        match self.second {
            Some(s) => if s == 60 {
                59
            } else {
                s as int
            },
            None => 0,
        }
    }

    /// Whether the fields name a moment of the calendar. A field that was
    /// not read stands at its value at the epoch: the month and the day at
    /// 1, the hour, the minute and the second at 0.
    pub open spec fn names_moment(self) -> bool {
        match self.calendar_year() {
            Some(year) => is_moment(
                year,
                self.month.unwrap_or(1) as int,
                self.day.unwrap_or(1) as int,
                self.hour.unwrap_or(0) as int,
                self.minute.unwrap_or(0) as int,
                self.calendar_second(),
            ),
            None => false,
        }
    }

    /// The seconds since the epoch that the fields stand for. Seconds since
    /// the epoch that were given outright are the answer, whatever else was
    /// read. Otherwise the fields must name a moment of the calendar, and
    /// the answer is that moment in UTC.
    pub open spec fn moment(self) -> Option<i64> {
        if self.epoch is Some {
            self.epoch
        } else if self.names_moment() {
            Some(
                epoch_seconds(
                    self.calendar_year().unwrap(),
                    self.month.unwrap_or(1) as int,
                    self.day.unwrap_or(1) as int,
                    self.hour.unwrap_or(0) as int,
                    self.minute.unwrap_or(0) as int,
                    self.calendar_second(),
                ) as i64,
            )
        } else {
            None
        }
    }

    /// No field read yet.
    pub fn new() -> (fields: Fields)
        ensures
            fields == Fields::blank(),
    {
        Fields {
            year: None,
            century: None,
            year_of_century: None,
            month: None,
            day: None,
            hour: None,
            minute: None,
            second: None,
            epoch: None,
        }
    }

    /// Enters `value` for a specifier, unless the field holds another value
    /// already.
    pub fn with(self, s: Specifier, value: u64) -> (entered: Option<Fields>)
        requires
            value <= i64::MAX,
            s != Specifier::Epoch ==> value <= u32::MAX,
        ensures
            entered == self.put(s, value as int),
    {
        let mut next = self;
        match s {
            Specifier::Epoch => {
                match self.epoch {
                    Some(held) => {
                        if held != value as i64 {
                            return None;
                        }
                    },
                    None => {
                        next.epoch = Some(value as i64);
                    },
                }
            },
            Specifier::Fraction => {},
            _ => {
                let v: u32 = value as u32;
                match s {
                    Specifier::Year => {
                        if !can_take(self.year, v) {
                            return None;
                        }
                        next.year = Some(v);
                    },
                    Specifier::Century => {
                        if !can_take(self.century, v) {
                            return None;
                        }
                        next.century = Some(v);
                    },
                    Specifier::YearOfCentury => {
                        if !can_take(self.year_of_century, v) {
                            return None;
                        }
                        next.year_of_century = Some(v);
                    },
                    Specifier::Day => {
                        if !can_take(self.day, v) {
                            return None;
                        }
                        next.day = Some(v);
                    },
                    Specifier::Hour => {
                        if !can_take(self.hour, v) {
                            return None;
                        }
                        next.hour = Some(v);
                    },
                    Specifier::Minute => {
                        if !can_take(self.minute, v) {
                            return None;
                        }
                        next.minute = Some(v);
                    },
                    Specifier::Second => {
                        if !can_take(self.second, v) {
                            return None;
                        }
                        next.second = Some(v);
                    },
                    _ => {
                        if !can_take(self.month, v) {
                            return None;
                        }
                        next.month = Some(v);
                    },
                }
            },
        }
        Some(next)
    }

    /// The year that the fields name, if they name one.
    pub fn year_named(&self) -> (year: Option<i32>)
        ensures
            match year {
                Some(y) => self.calendar_year() == Some(y as int) && 0 <= y <= 9999,
                None => self.calendar_year() is None,
            },
    {
        match (self.year, self.century, self.year_of_century) {
            (Some(y), c, r) => {
                if y <= 9999 && can_take(c, y / 100) && can_take(r, y % 100) {
                    Some(y as i32)
                } else {
                    None
                }
            },
            (None, Some(c), Some(r)) => {
                if c <= 99 && r <= 99 {
                    Some((c * 100 + r) as i32)
                } else {
                    None
                }
            },
            (None, Some(_), None) => None,
            (None, None, Some(r)) => {
                if r >= 100 {
                    None
                } else if r < 70 {
                    Some((2000 + r) as i32)
                } else {
                    Some((1900 + r) as i32)
                }
            },
            (None, None, None) => Some(1970),
        }
    }

    /// The seconds since the epoch that the fields stand for, if they stand
    /// for a moment.
    pub fn resolve(&self) -> (seconds: Option<i64>)
        ensures
            seconds == self.moment(),
    {
        if self.epoch.is_some() {
            return self.epoch;
        }
        let year: i32 = match self.year_named() {
            Some(y) => y,
            None => {
                return None;
            },
        };
        let month: u32 = match self.month {
            Some(m) => m,
            None => 1,
        };
        let day: u32 = match self.day {
            Some(d) => d,
            None => 1,
        };
        let hour: u32 = match self.hour {
            Some(h) => h,
            None => 0,
        };
        let minute: u32 = match self.minute {
            Some(m) => m,
            None => 0,
        };
        let second: u32 = match self.second {
            Some(s) => if s == 60 {
                59
            } else {
                s
            },
            None => 0,
        };
        utc_seconds(year, month, day, hour, minute, second)
    }
}

/// Fields that name no moment of the calendar, such as a 32nd day or a 25th
/// hour, stand for no timestamp, unless seconds since the epoch were given
/// outright.
pub proof fn no_moment_no_timestamp(fields: Fields)
    requires
        fields.epoch is None,
        !fields.names_moment(),
    ensures
        fields.moment() is None,
{
}

/// No month has a 32nd day: fields with a day above 31 stand for no
/// timestamp, unless seconds since the epoch were given outright.
pub proof fn day_past_the_month_is_rejected(fields: Fields)
    requires
        fields.epoch is None,
        fields.day matches Some(d) && d > 31,
    ensures
        fields.moment() is None,
{
}

/// A timestamp that comes from the calendar is the number of seconds from
/// the epoch to a moment that the calendar has, in a year from 0 to 9999.
pub proof fn timestamp_is_a_moment(fields: Fields)
    requires
        fields.epoch is None,
        fields.moment() is Some,
    ensures
        exists|year: int, month: int, day: int, hour: int, minute: int, second: int|
            0 <= year <= 9999 && is_moment(year, month, day, hour, minute, second)
                && fields.moment().unwrap() == #[trigger] epoch_seconds(
                year,
                month,
                day,
                hour,
                minute,
                second,
            ),
{
    let year = fields.calendar_year().unwrap();
    let month = fields.month.unwrap_or(1) as int;
    let day = fields.day.unwrap_or(1) as int;
    let hour = fields.hour.unwrap_or(0) as int;
    let minute = fields.minute.unwrap_or(0) as int;
    let second = fields.calendar_second();
    lemma_epoch_seconds_bounds(year, month, day, hour, minute, second);
    assert(fields.moment().unwrap() == epoch_seconds(year, month, day, hour, minute, second));
}

/// Between the years 0 and 9999 every moment is well within an `i64`.
pub proof fn lemma_epoch_seconds_bounds(
    year: int,
    month: int,
    day: int,
    hour: int,
    minute: int,
    second: int,
)
    requires
        0 <= year <= 9999,
        is_moment(year, month, day, hour, minute, second),
    ensures
        -62_167_219_200 <= epoch_seconds(year, month, day, hour, minute, second)
            <= 253_402_300_799,
{
    reveal_with_fuel(crate::calendar::days_before_month, 13);
}

} // verus!
