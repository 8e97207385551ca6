//! A date and time together with the time zone in which they are read.
use vstd::prelude::*;
use crate::datetime::{date_time_fault, DateTime};
use crate::timezone::{custom_zone, CustomTimeZone, CustomTimeZoneView};
use crate::{Error, ErrorView};

verus! {

/// What a caller says of a date and time and of its zone.
#[derive(Debug)]
pub struct Spec {
    pub datetime: crate::datetime::Spec,
    pub timezone: crate::timezone::Spec,
}

/// A `Spec` with its texts as sequences of characters.
pub ghost struct SpecView {
    pub datetime: crate::datetime::Spec,
    pub timezone: crate::timezone::SpecView,
}

impl View for Spec {
    type V = SpecView;

    open spec fn view(&self) -> SpecView {
        SpecView { datetime: self.datetime, timezone: self.timezone@ }
    }
}

/// The date and time and the zone that a description gives. The date and
/// time are settled first, then the zone; the first failure is the result.
/// The zone's metazone is to be worked out at the date and time of the
/// description, whatever the zone's own description says of it, so a local
/// date in there is checked and then set aside.
pub open spec fn zoned(spec: SpecView) -> Result<(DateTime, CustomTimeZoneView), ErrorView> {
    match date_time_fault(spec.datetime) {
        Some(fault) => Err(ErrorView::DateRange(fault)),
        None => match custom_zone(spec.timezone) {
            Err(e) => Err(e),
            Ok(found) => Ok(
                (
                    DateTime {
                        date: crate::date::Date {
                            year: spec.datetime.year,
                            month: spec.datetime.month,
                            day: spec.datetime.day,
                        },
                        time: crate::time::Time {
                            hour: spec.datetime.hour,
                            minute: spec.datetime.minute,
                            second: spec.datetime.second,
                            nanosecond: spec.datetime.nanosecond,
                        },
                    },
                    found.0,
                ),
            ),
        },
    }
}

/// Settles the date and time and the zone of a description. The caller
/// works the zone's metazone out at the date and time returned.
pub fn try_from(value: Spec) -> (r: Result<(DateTime, CustomTimeZone), Error>)
    ensures
        match r {
            Ok(found) => zoned(value@) == Ok::<(DateTime, CustomTimeZoneView), ErrorView>(
                (found.0, found.1@),
            ) && found.0.wf(),
            Err(e) => zoned(value@) == Err::<(DateTime, CustomTimeZoneView), ErrorView>(e@),
        },
{
    let Spec { datetime, timezone } = value;
    let at = match DateTime::try_from(datetime) {
        Ok(at) => at,
        Err(e) => { return Err(e); },
    };
    match CustomTimeZone::try_from(timezone) {
        Ok(found) => Ok((at, found.0)),
        Err(e) => Err(e),
    }
}

} // verus!
