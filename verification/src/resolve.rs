//! The steps by which a description is resolved: the date, the time of day,
//! the identity of the zone, and the zone with its variant.
use vstd::prelude::*;
use vstd::string::StringExecFns;
use crate::date::{date_fault, Date};
use crate::format::{
    offset_seconds, text_of, zone_of, SpecView, SpecifiedView, TimezoneSpec, TimezoneSpecView,
};
use crate::time::{time_fault, Time};
use crate::zone::{
    disambiguate, fixed_offset, iana_zone, is_subtag, is_zone_id, joined, lemma_joined,
    lemma_subtag_is_zone_id, lemma_unknown_id_is_zone_id, offsets_at, parse_iana, parse_subtag,
    subtag_of, unknown_id, utc_zone, variant_of, with_offset, zone_offsets, TimeZoneInfo,
    UtcOffsets, ZoneVariant, ZoneView,
};
use crate::{Error, ErrorView};
use icu_locale_core::ParseError;

verus! {

/// The date part of a value: whether a date was given, and the date. All
/// three fields give that date, if it exists; none gives the epoch as a
/// stand-in; one or two are refused.
pub open spec fn resolved_date(year: Option<i32>, month: Option<u8>, day: Option<u8>) -> Result<
    (bool, Date),
    ErrorView,
> {
    match (year, month, day) {
        (Some(y), Some(m), Some(d)) => match date_fault(y as int, m as int, d as int) {
            None => Ok((true, Date { year: y, month: m, day: d })),
            Some(fault) => Err(ErrorView::DateRange(fault)),
        },
        (None, None, None) => Ok((false, Date::epoch())),
        _ => Err(ErrorView::PartialDate),
    }
}

/// A field that was left out counts as zero.
pub open spec fn or_zero<T: Integer>(field: Option<T>) -> int {
    match field {
        Some(v) => v as int,
        None => 0,
    }
}

/// The time part of a value: whether a time was given, and the time. An hour
/// gives a time, with zero for each smaller field that was left out; no
/// field at all gives midnight as a stand-in; a smaller field without an
/// hour is refused.
pub open spec fn resolved_time(
    hour: Option<u8>,
    minute: Option<u8>,
    second: Option<u8>,
    nanosecond: Option<u32>,
) -> Result<(bool, Time), ErrorView> {
    match hour {
        Some(h) => match time_fault(
            h as int,
            or_zero(minute),
            or_zero(second),
            or_zero(nanosecond),
        ) {
            None => Ok(
                (
                    true,
                    Time {
                        hour: h,
                        minute: or_zero(minute) as u8,
                        second: or_zero(second) as u8,
                        nanosecond: or_zero(nanosecond) as u32,
                    },
                ),
            ),
            Some(fault) => Err(ErrorView::DateRange(fault)),
        },
        None => if minute is Some || second is Some || nanosecond is Some {
            Err(ErrorView::PartialTime)
        } else {
            Ok((false, Time::start_of_day()))
        },
    }
}

/// The identity of the zone: the unknown zone where neither form is given,
/// the subtag that a BCP-47 identifier is read as, the zone that the
/// database knows under an IANA name. Both forms together are refused, and
/// so are an identifier that is no subtag and a name that the database
/// does not know.
pub open spec fn resolved_identity(bcp47: Option<Seq<char>>, iana: Option<Seq<char>>) -> Result<
    Seq<char>,
    ErrorView,
> {
    match (bcp47, iana) {
        (None, None) => Ok(unknown_id()),
        (Some(id), None) => if is_subtag(id) {
            Ok(subtag_of(id))
        } else {
            Err(ErrorView::Bcp47(ParseError::InvalidSubtag, id))
        },
        (None, Some(name)) => if iana_zone(name) == unknown_id() {
            Err(ErrorView::UnknownIana)
        } else {
            Ok(iana_zone(name))
        },
        (Some(_), Some(_)) => Err(ErrorView::IanaAndBcp47),
    }
}

/// The variant of a zone that was joined with an offset given by the
/// caller. Where no offset is left on the zone, and where no date was
/// given, it is standard; else it is what the zone's offsets at that date
/// and time say of the offset.
pub open spec fn resolved_variant(
    zone: (Seq<char>, Option<i32>),
    has_date: bool,
    date: Date,
    time: Time,
) -> Result<ZoneVariant, ErrorView> {
    match zone.1 {
        None => Ok(ZoneVariant::Standard),
        Some(offset) => if has_date {
            match variant_of(offset, zone_offsets(zone.0, date, time)) {
                Ok(variant) => Ok(variant),
                Err(known) => Err(ErrorView::OffsetMismatch(known)),
            }
        } else {
            Ok(ZoneVariant::Standard)
        },
    }
}

/// The zone part of a value: whether a zone was given, and the zone. No
/// zone gives UTC on standard time. Else the identity is settled first,
/// then the offset, and the two are joined. Where the caller gave no
/// offset the zone is on standard time; where they gave one, the variant is
/// disambiguated.
pub open spec fn resolved_zone(
    zone: Option<TimezoneSpecView>,
    has_date: bool,
    date: Date,
    time: Time,
) -> Result<(bool, ZoneView), ErrorView> {
    match zone {
        None => Ok((false, utc_zone())),
        Some(given) => match resolved_identity(given.bcp47, given.iana) {
            Err(e) => Err(e),
            Ok(id) => match given.offset {
                None => Ok(
                    (
                        true,
                        ZoneView {
                            id: joined(id, None).0,
                            offset: joined(id, None).1,
                            variant: ZoneVariant::Standard,
                        },
                    ),
                ),
                Some(offset) => match offset_seconds(offset) {
                    None => Err(ErrorView::InvalidOffset),
                    Some(seconds) => match resolved_variant(
                        joined(id, Some(seconds)),
                        has_date,
                        date,
                        time,
                    ) {
                        Err(e) => Err(e),
                        Ok(variant) => Ok(
                            (
                                true,
                                ZoneView {
                                    id: joined(id, Some(seconds)).0,
                                    offset: joined(id, Some(seconds)).1,
                                    variant,
                                },
                            ),
                        ),
                    },
                },
            },
        },
    }
}

/// The value that a description resolves to. The date is settled first,
/// then the time, then the zone; the first failure is the result.
pub open spec fn resolved(spec: SpecView) -> Result<SpecifiedView, ErrorView> {
    match resolved_date(spec.year, spec.month, spec.day) {
        Err(e) => Err(e),
        Ok((has_date, date)) => match resolved_time(
            spec.hour,
            spec.minute,
            spec.second,
            spec.nanosecond,
        ) {
            Err(e) => Err(e),
            Ok((has_time, time)) => match resolved_zone(spec.zone, has_date, date, time) {
                Err(e) => Err(e),
                Ok((has_zone, zone)) => Ok(
                    SpecifiedView { date, time, zone, has_date, has_time, has_zone },
                ),
            },
        },
    }
}

/// Settles the date part of a description.
pub fn validate_date(year: Option<i32>, month: Option<u8>, day: Option<u8>) -> (r: Result<
    (bool, Date),
    Error,
>)
    ensures
        match r {
            Ok(part) => resolved_date(year, month, day) == Ok::<(bool, Date), ErrorView>(part)
                && part.1.wf(),
            Err(e) => resolved_date(year, month, day) == Err::<(bool, Date), ErrorView>(e@),
        },
{
    match (year, month, day) {
        (Some(y), Some(m), Some(d)) => match Date::try_new_iso(y, m, d) {
            Ok(date) => Ok((true, date)),
            Err(e) => Err(Error::DateRange(e)),
        },
        (None, None, None) => Ok((false, Date::epoch())),
        _ => Err(Error::PartialDate),
    }
}

/// Settles the time part of a description.
pub fn validate_time(
    hour: Option<u8>,
    minute: Option<u8>,
    second: Option<u8>,
    nanosecond: Option<u32>,
) -> (r: Result<(bool, Time), Error>)
    ensures
        match r {
            Ok(part) => resolved_time(hour, minute, second, nanosecond) == Ok::<
                (bool, Time),
                ErrorView,
            >(part) && part.1.wf(),
            Err(e) => resolved_time(hour, minute, second, nanosecond) == Err::<
                (bool, Time),
                ErrorView,
            >(e@),
        },
{
    match hour {
        Some(h) => {
            let minute = match minute {
                Some(m) => m,
                None => 0,
            };
            let second = match second {
                Some(s) => s,
                None => 0,
            };
            let nanosecond = match nanosecond {
                Some(n) => n,
                None => 0,
            };
            match Time::try_new(h, minute, second, nanosecond) {
                Ok(time) => Ok((true, time)),
                Err(e) => Err(Error::DateRange(e)),
            }
        },
        None => {
            if minute.is_some() || second.is_some() || nanosecond.is_some() {
                Err(Error::PartialTime)
            } else {
                Ok((false, Time::start_of_day()))
            }
        },
    }
}

/// Settles which zone is meant.
pub fn resolve_identity(bcp47: Option<String>, iana: Option<String>) -> (r: Result<String, Error>)
    ensures
        match r {
            Ok(id) => resolved_identity(text_of(bcp47), text_of(iana)) == Ok::<
                Seq<char>,
                ErrorView,
            >(id@) && is_zone_id(id@),
            Err(e) => resolved_identity(text_of(bcp47), text_of(iana)) == Err::<
                Seq<char>,
                ErrorView,
            >(e@),
        },
{
    match (bcp47, iana) {
        (None, None) => {
            proof {
                lemma_unknown_id_is_zone_id();
            }
            Ok(String::from_str("unk"))
        },
        (Some(id), None) => match parse_subtag(id.as_str()) {
            Ok(subtag) => {
                proof {
                    lemma_subtag_is_zone_id(id@);
                }
                Ok(subtag)
            },
            Err(e) => Err(Error::Bcp47(e, id)),
        },
        (None, Some(name)) => {
            let found = parse_iana(name.as_str());
            let unknown = String::from_str("unk");
            if found == unknown {
                Err(Error::UnknownIana)
            } else {
                Ok(found)
            }
        },
        (Some(_), Some(_)) => Err(Error::IanaAndBcp47),
    }
}

/// Settles the variant of a zone that was joined with an offset given by
/// the caller.
pub fn resolve_variant(id: &str, offset: Option<i32>, has_date: bool, date: Date, time: Time) -> (r:
    Result<ZoneVariant, Error>)
    requires
        is_zone_id(id@),
        date.wf(),
        time.wf(),
    ensures
        match r {
            Ok(variant) => resolved_variant((id@, offset), has_date, date, time) == Ok::<
                ZoneVariant,
                ErrorView,
            >(variant),
            Err(e) => resolved_variant((id@, offset), has_date, date, time) == Err::<
                ZoneVariant,
                ErrorView,
            >(e@),
        },
{
    match offset {
        None => Ok(ZoneVariant::Standard),
        Some(seconds) => {
            if has_date {
                disambiguate(seconds, offsets_at(id, date, time))
            } else {
                Ok(ZoneVariant::Standard)
            }
        },
    }
}

/// A zone agrees with its description: where one was given, the zone has
/// the identity that the description resolves to, or is unknown, and an
/// offset that the caller gave is the zone's offset, unless the zone has
/// none.
pub open spec fn agrees(given: Option<TimezoneSpecView>, zone: ZoneView) -> bool {
    given matches Some(given) ==> {
        &&& resolved_identity(given.bcp47, given.iana) matches Ok(id) && (zone.id == id
            || zone.id == unknown_id())
        &&& given.offset matches Some(offset) ==> zone.offset is None || zone.offset
            == offset_seconds(offset)
    }
}

/// Settles the zone part of a description, for the date and time that the
/// description resolved to.
pub fn resolve_zone(zone: Option<TimezoneSpec>, has_date: bool, date: Date, time: Time) -> (r:
    Result<(bool, TimeZoneInfo), Error>)
    requires
        date.wf(),
        time.wf(),
    ensures
        match r {
            Ok(part) => resolved_zone(zone_of(zone), has_date, date, time) == Ok::<
                (bool, ZoneView),
                ErrorView,
            >((part.0, part.1@)) && part.1.wf() && (!part.0 ==> part.1@ == utc_zone())
                && agrees(zone_of(zone), part.1@),
            Err(e) => resolved_zone(zone_of(zone), has_date, date, time) == Err::<
                (bool, ZoneView),
                ErrorView,
            >(e@),
        },
{
    match zone {
        None => Ok((false, TimeZoneInfo::utc())),
        Some(given) => {
            let TimezoneSpec { offset, iana, bcp47 } = given;
            let id = match resolve_identity(bcp47, iana) {
                Ok(id) => id,
                Err(e) => { return Err(e); },
            };
            match offset {
                None => {
                    proof {
                        lemma_joined(id@, None);
                    }
                    let (id, offset) = with_offset(id.as_str(), None);
                    Ok((true, TimeZoneInfo { id, offset, variant: ZoneVariant::Standard }))
                },
                Some(given_offset) => {
                    let seconds = match given_offset.to_seconds() {
                        Ok(seconds) => seconds,
                        Err(e) => { return Err(e); },
                    };
                    proof {
                        lemma_joined(id@, Some(seconds));
                    }
                    let (id, offset) = with_offset(id.as_str(), Some(seconds));
                    match resolve_variant(id.as_str(), offset, has_date, date, time) {
                        Ok(variant) => Ok((true, TimeZoneInfo { id, offset, variant })),
                        Err(e) => Err(e),
                    }
                },
            }
        },
    }
}

/// A description that gives year, month and day resolves, if it resolves
/// at all, to a value that has a date, and the date is the one given.
pub proof fn lemma_full_date_is_kept(spec: SpecView, year: i32, month: u8, day: u8)
    requires
        spec.year == Some(year),
        spec.month == Some(month),
        spec.day == Some(day),
        resolved(spec) is Ok,
    ensures
        resolved(spec)->Ok_0.has_date,
        resolved(spec)->Ok_0.date == (Date { year, month, day }),
{
}

/// A description that gives one or two of year, month and day fails with
/// `PartialDate`, whatever else it holds.
pub proof fn lemma_partial_date_is_refused(spec: SpecView)
    requires
        spec.year is Some || spec.month is Some || spec.day is Some,
        spec.year is None || spec.month is None || spec.day is None,
    ensures
        resolved(spec) == Err::<SpecifiedView, ErrorView>(ErrorView::PartialDate),
{
}

/// A description without an hour that gives a minute, a second or a
/// nanosecond fails with `PartialTime`, once its date fields have passed.
pub proof fn lemma_partial_time_is_refused(spec: SpecView)
    requires
        resolved_date(spec.year, spec.month, spec.day) is Ok,
        spec.hour is None,
        spec.minute is Some || spec.second is Some || spec.nanosecond is Some,
    ensures
        resolved(spec) == Err::<SpecifiedView, ErrorView>(ErrorView::PartialTime),
{
}

/// A description whose zone gives both an IANA name and a BCP-47
/// identifier fails with `IanaAndBcp47`, whatever the two are and whatever
/// offset comes with them, once its date and time fields have passed.
pub proof fn lemma_two_identities_are_refused(spec: SpecView, zone: TimezoneSpecView)
    requires
        resolved_date(spec.year, spec.month, spec.day) is Ok,
        resolved_time(spec.hour, spec.minute, spec.second, spec.nanosecond) is Ok,
        spec.zone == Some(zone),
        zone.iana is Some,
        zone.bcp47 is Some,
    ensures
        resolved(spec) == Err::<SpecifiedView, ErrorView>(ErrorView::IanaAndBcp47),
{
}

/// In every value that a description resolves to, a part that the caller
/// did not give is its stand-in: the epoch, midnight, UTC on standard time;
/// and the date and the time are in range.
pub proof fn lemma_stand_ins(spec: SpecView)
    requires
        resolved(spec) is Ok,
    ensures
        ({
            let value = resolved(spec)->Ok_0;
            &&& value.date.wf()
            &&& value.time.wf()
            &&& !value.has_date ==> value.date == Date::epoch()
            &&& !value.has_time ==> value.time == Time::start_of_day()
            &&& !value.has_zone ==> value.zone == utc_zone()
            &&& value.has_date == (spec.year is Some)
            &&& value.has_time == (spec.hour is Some)
            &&& value.has_zone == (spec.zone is Some)
        }),
{
}

/// A value whose zone was given without an offset, or without a date, is
/// on standard time: the zone's offsets are not consulted.
pub proof fn lemma_standard_without_lookup(spec: SpecView, zone: TimezoneSpecView)
    requires
        resolved(spec) is Ok,
        spec.zone == Some(zone),
        zone.offset is None || spec.year is None,
    ensures
        resolved(spec)->Ok_0.zone.variant == ZoneVariant::Standard,
{
}

/// A value is on daylight time only where the caller gave a date and an
/// offset, and the offset that the zone keeps is the daylight offset, and
/// not the standard offset, among those that the zone observes at that date
/// and time.
pub proof fn lemma_daylight_is_looked_up(spec: SpecView)
    requires
        resolved(spec) is Ok,
        resolved(spec)->Ok_0.zone.variant == ZoneVariant::Daylight,
    ensures
        ({
            let value = resolved(spec)->Ok_0;
            &&& value.has_date
            &&& spec.zone matches Some(given) && given.offset is Some
            &&& value.zone.offset matches Some(offset) && zone_offsets(
                value.zone.id,
                value.date,
                value.time,
            ) matches Some(known) && known.daylight == Some(offset) && known.standard != offset
        }),
{
}

/// Where a description gives a date, one identity and an offset, and the
/// zone so identified has no fixed offset other than the one given, the
/// zone of the value has that identity and that offset, and the offsets
/// that the zone observes at the date and time decide the rest: the value
/// is on standard time where the offset is the standard one, on daylight
/// time where it is the daylight one, and where it is neither the
/// description fails with `OffsetMismatch`, which carries both.
pub proof fn lemma_offset_decides_variant(
    spec: SpecView,
    given: TimezoneSpecView,
    id: Seq<char>,
    seconds: i32,
    known: UtcOffsets,
)
    requires
        resolved_date(spec.year, spec.month, spec.day) matches Ok(part) && part.0,
        resolved_time(spec.hour, spec.minute, spec.second, spec.nanosecond) is Ok,
        spec.zone == Some(given),
        resolved_identity(given.bcp47, given.iana) == Ok::<Seq<char>, ErrorView>(id),
        given.offset matches Some(offset) && offset_seconds(offset) == Some(seconds),
        fixed_offset(id) is None || fixed_offset(id) == Some(seconds),
        zone_offsets(
            id,
            resolved_date(spec.year, spec.month, spec.day)->Ok_0.1,
            resolved_time(spec.hour, spec.minute, spec.second, spec.nanosecond)->Ok_0.1,
        ) == Some(known),
    ensures
        match variant_of(seconds, Some(known)) {
            Ok(variant) => resolved(spec) matches Ok(value) && value.has_zone && value.zone == (
                ZoneView { id, offset: Some(seconds), variant }
            ),
            Err(_) => resolved(spec) == Err::<SpecifiedView, ErrorView>(
                ErrorView::OffsetMismatch(known),
            ),
        },
        seconds == known.standard ==> resolved(spec) is Ok && resolved(spec)->Ok_0.zone.variant
            == ZoneVariant::Standard,
        seconds != known.standard && known.daylight == Some(seconds) ==> resolved(spec) is Ok
            && resolved(spec)->Ok_0.zone.variant == ZoneVariant::Daylight,
{
}

/// A zone that is identified by a name or an identifier without a fixed
/// offset keeps its identity and the offset that the caller gave.
pub proof fn lemma_zone_is_kept(spec: SpecView, given: TimezoneSpecView, id: Seq<char>)
    requires
        resolved(spec) is Ok,
        spec.zone == Some(given),
        resolved_identity(given.bcp47, given.iana) == Ok::<Seq<char>, ErrorView>(id),
        fixed_offset(id) is None,
    ensures
        resolved(spec)->Ok_0.zone.id == id,
        resolved(spec)->Ok_0.zone.offset == match given.offset {
            Some(offset) => offset_seconds(offset),
            None => None,
        },
{
}

} // verus!
