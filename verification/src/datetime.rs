//! A date together with a time of day.
use vstd::prelude::*;
use crate::date::{date_fault, Date};
use crate::time::{time_fault, Time};
use crate::{Error, ErrorView, OutOfRange};

verus! {

/// The fields of a date and a time of day as a caller gives them.
#[derive(Clone, Copy, Debug, PartialEq, Eq, Structural)]
pub struct Spec {
    pub year: i32,
    pub month: u8,
    pub day: u8,
    pub hour: u8,
    pub minute: u8,
    pub second: u8,
    pub nanosecond: u32,
}

/// A date on the proleptic ISO calendar and a time of day.
#[derive(Clone, Copy, Debug, PartialEq, Eq, Structural)]
pub struct DateTime {
    pub date: Date,
    pub time: Time,
}

/// The first fault in the seven fields, if any: the date is judged before
/// the time.
pub open spec fn date_time_fault(value: Spec) -> Option<OutOfRange> {
    match date_fault(value.year as int, value.month as int, value.day as int) {
        Some(fault) => Some(fault),
        None => time_fault(
            value.hour as int,
            value.minute as int,
            value.second as int,
            value.nanosecond as int,
        ),
    }
}

impl DateTime {
    /// Both parts are in range.
    pub open spec fn wf(self) -> bool {
        self.date.wf() && self.time.wf()
    }

    /// The date and time that a caller's seven fields give, or `DateRange`
    /// with the first of them that is out of range.
    pub fn try_from(value: Spec) -> (r: Result<DateTime, Error>)
        ensures
            match r {
                Ok(at) => date_time_fault(value) is None && at == (DateTime {
                    date: Date { year: value.year, month: value.month, day: value.day },
                    time: Time {
                        hour: value.hour,
                        minute: value.minute,
                        second: value.second,
                        nanosecond: value.nanosecond,
                    },
                }) && at.wf(),
                Err(e) => date_time_fault(value) is Some && e@ == ErrorView::DateRange(
                    date_time_fault(value)->0,
                ),
            },
    {
        let date = match Date::try_new_iso(value.year, value.month, value.day) {
            Ok(date) => date,
            Err(e) => { return Err(Error::DateRange(e)); },
        };
        let time = match Time::try_new(value.hour, value.minute, value.second, value.nanosecond) {
            Ok(time) => time,
            Err(e) => { return Err(Error::DateRange(e)); },
        };
        Ok(DateTime { date, time })
    }
}

} // verus!
