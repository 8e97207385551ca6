//! Times of day.
use vstd::prelude::*;
use icu_calendar::RangeError;
use crate::date::fault_of;
use crate::{Error, ErrorView, OutOfRange};

verus! {

/// The fields of a time of day as a caller gives them.
#[derive(Clone, Copy, Debug, PartialEq, Eq, Structural)]
pub struct Spec {
    pub hour: u8,
    pub minute: u8,
    pub second: u8,
    pub nanosecond: u32,
}

/// A time of day, from 00:00:00.000000000 to 23:59:60.999999999.
#[derive(Clone, Copy, Debug, PartialEq, Eq, Structural)]
pub struct Time {
    pub hour: u8,
    pub minute: u8,
    pub second: u8,
    pub nanosecond: u32,
}

/// The number that a range error shows for a nanosecond count: the count
/// read as a signed 32-bit integer.
pub open spec fn shown_nanosecond(nanosecond: int) -> int {
    if nanosecond >= 0x8000_0000 {
        nanosecond - 0x1_0000_0000
    } else {
        nanosecond
    }
}

/// The fault that is found in the four fields, if any. They are judged in
/// the order hour, minute, second, nanosecond; a second of 60 is a leap
/// second and passes.
pub open spec fn time_fault(hour: int, minute: int, second: int, nanosecond: int) -> Option<
    OutOfRange,
> {
    if hour > 23 {
        Some(OutOfRange { field: "Hour"@, value: hour, min: 0, max: 23 })
    } else if minute > 59 {
        Some(OutOfRange { field: "Minute"@, value: minute, min: 0, max: 59 })
    } else if second > 60 {
        Some(OutOfRange { field: "Second"@, value: second, min: 0, max: 60 })
    } else if nanosecond > 999_999_999 {
        Some(
            OutOfRange {
                field: "Nanosecond"@,
                value: shown_nanosecond(nanosecond),
                min: 0,
                max: 999_999_999,
            },
        )
    } else {
        None
    }
}

/// Asks `icu_time::Time::try_new` whether the four fields form a time of day
/// and hands its error on. The contract restates the constructor's checks:
/// hour at most 23, minute at most 59, second at most 60, nanosecond at
/// most 999,999,999, tried in that order, the first failure reported under
/// the name of its type.
#[verifier::external_body]
fn check_time(hour: u8, minute: u8, second: u8, nanosecond: u32) -> (r: Result<(), RangeError>)
    ensures
        fault_of(r) == time_fault(hour as int, minute as int, second as int, nanosecond as int),
{
    match icu_time::Time::try_new(hour, minute, second, nanosecond) {
        Ok(_) => Ok(()),
        Err(e) => Err(e),
    }
}

impl Time {
    /// Every field is within its range.
    pub open spec fn wf(self) -> bool {
        time_fault(
            self.hour as int,
            self.minute as int,
            self.second as int,
            self.nanosecond as int,
        ) is None
    }

    /// 00:00:00, which stands in where no time was given.
    pub open spec fn spec_start_of_day() -> Time {
        Time { hour: 0, minute: 0, second: 0, nanosecond: 0 }
    }

    #[verifier::when_used_as_spec(spec_start_of_day)]
    pub fn start_of_day() -> (r: Time)
        ensures
            r == Time::spec_start_of_day(),
            r.wf(),
    {
        Time { hour: 0, minute: 0, second: 0, nanosecond: 0 }
    }

    /// The time of day that a caller's four fields give, or `DateRange` with
    /// the first of them that is out of range.
    pub fn try_from(value: Spec) -> (r: Result<Time, Error>)
        ensures
            match r {
                Ok(time) => time == (Time {
                    hour: value.hour,
                    minute: value.minute,
                    second: value.second,
                    nanosecond: value.nanosecond,
                }) && time.wf(),
                Err(e) => time_fault(
                    value.hour as int,
                    value.minute as int,
                    value.second as int,
                    value.nanosecond as int,
                ) is Some && e@ == ErrorView::DateRange(
                    time_fault(
                        value.hour as int,
                        value.minute as int,
                        value.second as int,
                        value.nanosecond as int,
                    )->0,
                ),
            },
    {
        match Time::try_new(value.hour, value.minute, value.second, value.nanosecond) {
            Ok(time) => Ok(time),
            Err(e) => Err(Error::DateRange(e)),
        }
    }

    /// Builds the time of day of the four fields, or reports the first field
    /// that is out of range.
    pub fn try_new(hour: u8, minute: u8, second: u8, nanosecond: u32) -> (r: Result<
        Time,
        RangeError,
    >)
        ensures
            match r {
                Ok(time) => time == (Time { hour, minute, second, nanosecond }) && time.wf(),
                Err(e) => time_fault(
                    hour as int,
                    minute as int,
                    second as int,
                    nanosecond as int,
                ) == Some(crate::out_of_range(e)),
            },
    {
        match check_time(hour, minute, second, nanosecond) {
            Ok(_) => Ok(Time { hour, minute, second, nanosecond }),
            Err(e) => Err(e),
        }
    }
}

} // verus!
