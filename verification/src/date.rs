//! Dates on the proleptic ISO calendar.
use vstd::prelude::*;
use icu_calendar::RangeError;
use crate::{out_of_range, Error, ErrorView, OutOfRange};

verus! {

/// The three fields of a date as a caller gives them.
#[derive(Clone, Copy, Debug, PartialEq, Eq, Structural)]
pub struct Spec {
    pub year: i32,
    pub month: u8,
    pub day: u8,
}

/// A date on the proleptic ISO calendar, in a year from `MIN_YEAR` to
/// `MAX_YEAR`.
#[derive(Clone, Copy, Debug, PartialEq, Eq, Structural)]
pub struct Date {
    pub year: i32,
    pub month: u8,
    pub day: u8,
}

/// Whether `year` has a 29th of February.
pub open spec fn is_leap_year(year: int) -> bool {
    year % 4 == 0 && (year % 100 != 0 || year % 400 == 0)
}

/// The number of days of `month` in `year`, for a month from 1 to 12.
pub open spec fn days_in_month(year: int, month: int) -> int {
    if month == 2 {
        if is_leap_year(year) { 29 } else { 28 }
    } else if month == 4 || month == 6 || month == 9 || month == 11 {
        30
    } else {
        31
    }
}

/// The earliest year of a date. The calendar library holds years to this
/// range wherever it checks them at all, and the arithmetic by which it
/// turns a date into an instant is sure not to overflow within it.
pub const MIN_YEAR: i32 = -134_217_728;

/// The latest year of a date.
pub const MAX_YEAR: i32 = 134_217_728;

/// The fault of a year that lies outside the years of a date.
pub open spec fn year_fault(year: int) -> Option<OutOfRange> {
    if year < MIN_YEAR || year > MAX_YEAR {
        Some(OutOfRange { field: "year"@, value: year, min: MIN_YEAR as int, max: MAX_YEAR as int })
    } else {
        None
    }
}

/// The fault in the three fields, if any: the month is judged first, then
/// the day against the length of that month, and last the year.
pub open spec fn date_fault(year: int, month: int, day: int) -> Option<OutOfRange> {
    match calendar_fault(year, month, day) {
        Some(fault) => Some(fault),
        None => year_fault(year),
    }
}

/// The fault that the calendar finds in the three fields, if any: the month
/// is judged first, then the day against the length of that month. It has
/// no bound on the year.
pub open spec fn calendar_fault(year: int, month: int, day: int) -> Option<OutOfRange> {
    if month < 1 || month > 12 {
        Some(OutOfRange { field: "month"@, value: month, min: 1, max: 12 })
    } else if day < 1 || day > days_in_month(year, month) {
        Some(OutOfRange { field: "day"@, value: day, min: 1, max: days_in_month(year, month) })
    } else {
        None
    }
}

/// What a range check reported: nothing, or the content of its error.
pub open spec fn fault_of(r: Result<(), RangeError>) -> Option<OutOfRange> {
    match r {
        Ok(_) => None,
        Err(e) => Some(out_of_range(e)),
    }
}

/// Asks `icu_calendar::Date::try_new_iso` whether the three fields form a
/// date and hands its error on. The contract restates the two range checks
/// that the constructor makes: the month against 1..=12, then the day
/// against 1..=the length of that month in that year; the year itself is
/// not bounded.
#[verifier::external_body]
fn check_iso_date(year: i32, month: u8, day: u8) -> (r: Result<(), RangeError>)
    ensures
        fault_of(r) == calendar_fault(year as int, month as int, day as int),
{
    match icu_calendar::Date::try_new_iso(year, month, day) {
        Ok(_) => Ok(()),
        Err(e) => Err(e),
    }
}

impl Date {
    /// The date exists on the calendar, in a year from `MIN_YEAR` to
    /// `MAX_YEAR`.
    pub open spec fn wf(self) -> bool {
        date_fault(self.year as int, self.month as int, self.day as int) is None
    }

    /// 1970-01-01, which stands in where no date was given.
    pub open spec fn spec_epoch() -> Date {
        Date { year: 1970, month: 1, day: 1 }
    }

    #[verifier::when_used_as_spec(spec_epoch)]
    pub fn epoch() -> (r: Date)
        ensures
            r == Date::spec_epoch(),
            r.wf(),
    {
        Date { year: 1970, month: 1, day: 1 }
    }

    /// The date that a caller's three fields give, or `DateRange` with the
    /// first of them that is out of range.
    pub fn try_from(value: Spec) -> (r: Result<Date, Error>)
        ensures
            match r {
                Ok(date) => date_fault(value.year as int, value.month as int, value.day as int)
                    is None && date == (Date {
                    year: value.year,
                    month: value.month,
                    day: value.day,
                }) && date.wf(),
                Err(e) => date_fault(value.year as int, value.month as int, value.day as int)
                    is Some && e@ == ErrorView::DateRange(
                    date_fault(value.year as int, value.month as int, value.day as int)->0,
                ),
            },
    {
        match Date::try_new_iso(value.year, value.month, value.day) {
            Ok(date) => Ok(date),
            Err(e) => Err(Error::DateRange(e)),
        }
    }

    /// Builds the date of the three fields, or reports the first field that
    /// is out of range. Month and day are judged by the calendar library;
    /// a year that it would take, but that lies outside the years of a
    /// date, is reported in the same form.
    pub fn try_new_iso(year: i32, month: u8, day: u8) -> (r: Result<Date, RangeError>)
        ensures
            match r {
                Ok(date) => date_fault(year as int, month as int, day as int) is None
                    && date == (Date { year, month, day }) && date.wf(),
                Err(e) => date_fault(year as int, month as int, day as int) == Some(
                    out_of_range(e),
                ),
            },
    {
        match check_iso_date(year, month, day) {
            Ok(_) => {
                if year < MIN_YEAR || year > MAX_YEAR {
                    Err(RangeError { field: "year", value: year, min: MIN_YEAR, max: MAX_YEAR })
                } else {
                    Ok(Date { year, month, day })
                }
            },
            Err(e) => Err(e),
        }
    }
}

} // verus!
