//! The description of a time zone on its own, and the options for showing
//! it.
use vstd::prelude::*;
use icu_timezone::{GmtOffset, TimeZoneBcp47Id, TimeZoneIdMapper};
use tinystr::TinyStrError;
use crate::datetime::{date_time_fault, DateTime};
use crate::format::text_of;
use crate::zone::is_utc_offset;
use crate::{Error, ErrorView};

verus! {

/// An offset from GMT, as a number of seconds or as a text such as `+05:30`.
#[derive(Debug)]
pub enum GmtOffsetSpec {
    OffsetSeconds(i32),
    Chars(String),
}

/// A `GmtOffsetSpec` with its text as a sequence of characters.
pub ghost enum GmtOffsetSpecView {
    OffsetSeconds(i32),
    Chars(Seq<char>),
}

impl View for GmtOffsetSpec {
    type V = GmtOffsetSpecView;

    open spec fn view(&self) -> GmtOffsetSpecView {
        match *self {
            GmtOffsetSpec::OffsetSeconds(seconds) => GmtOffsetSpecView::OffsetSeconds(seconds),
            GmtOffsetSpec::Chars(text) => GmtOffsetSpecView::Chars(text@),
        }
    }
}

/// The identity of a time zone, in one of its two forms.
#[derive(Debug)]
pub enum TimezoneIdSpec {
    Bcp47(String),
    Iana(String),
}

/// A `TimezoneIdSpec` with its text as a sequence of characters.
pub ghost enum TimezoneIdSpecView {
    Bcp47(Seq<char>),
    Iana(Seq<char>),
}

impl View for TimezoneIdSpec {
    type V = TimezoneIdSpecView;

    open spec fn view(&self) -> TimezoneIdSpecView {
        match *self {
            TimezoneIdSpec::Bcp47(id) => TimezoneIdSpecView::Bcp47(id@),
            TimezoneIdSpec::Iana(name) => TimezoneIdSpecView::Iana(name@),
        }
    }
}

/// The metazone of a time zone: its identifier, or the local date and time
/// at which it is to be worked out.
#[derive(Debug)]
pub enum MetazoneSpec {
    Id(String),
    LocalDate(crate::datetime::Spec),
}

/// A `MetazoneSpec` with its text as a sequence of characters.
pub ghost enum MetazoneSpecView {
    Id(Seq<char>),
    LocalDate(crate::datetime::Spec),
}

impl View for MetazoneSpec {
    type V = MetazoneSpecView;

    open spec fn view(&self) -> MetazoneSpecView {
        match *self {
            MetazoneSpec::Id(id) => MetazoneSpecView::Id(id@),
            MetazoneSpec::LocalDate(at) => MetazoneSpecView::LocalDate(at),
        }
    }
}

/// What a caller says of a time zone on its own. The offset is always
/// given; the variant is a two-letter code that is passed on as it is.
#[derive(Debug)]
pub struct Spec {
    pub offset: GmtOffsetSpec,
    pub timezone_id: Option<TimezoneIdSpec>,
    pub metazone: Option<MetazoneSpec>,
    pub zone_variant: Option<String>,
}

/// A `Spec` with its texts as sequences of characters.
pub ghost struct SpecView {
    pub offset: GmtOffsetSpecView,
    pub timezone_id: Option<TimezoneIdSpecView>,
    pub metazone: Option<MetazoneSpecView>,
    pub zone_variant: Option<Seq<char>>,
}

impl View for Spec {
    type V = SpecView;

    open spec fn view(&self) -> SpecView {
        SpecView {
            offset: self.offset@,
            timezone_id: match self.timezone_id {
                Some(id) => Some(id@),
                None => None,
            },
            metazone: match self.metazone {
                Some(metazone) => Some(metazone@),
                None => None,
            },
            zone_variant: text_of(self.zone_variant),
        }
    }
}

/// A time zone by its parts: offset from GMT in seconds, BCP-47 identifier,
/// metazone identifier and variant code, each of which may be unknown.
#[derive(Debug)]
pub struct CustomTimeZone {
    pub gmt_offset: Option<i32>,
    pub time_zone_id: Option<String>,
    pub metazone_id: Option<String>,
    pub zone_variant: Option<String>,
}

/// A `CustomTimeZone` with its texts as sequences of characters.
pub ghost struct CustomTimeZoneView {
    pub gmt_offset: Option<i32>,
    pub time_zone_id: Option<Seq<char>>,
    pub metazone_id: Option<Seq<char>>,
    pub zone_variant: Option<Seq<char>>,
}

impl View for CustomTimeZone {
    type V = CustomTimeZoneView;

    open spec fn view(&self) -> CustomTimeZoneView {
        CustomTimeZoneView {
            gmt_offset: self.gmt_offset,
            time_zone_id: text_of(self.time_zone_id),
            metazone_id: text_of(self.metazone_id),
            zone_variant: text_of(self.zone_variant),
        }
    }
}

/// The shape of an ISO-8601 offset.
#[derive(Clone, Copy, Debug, PartialEq, Eq, Structural)]
pub enum IsoFormatSpec {
    Basic,
    Extended,
    UtcBasic,
    UtcExtended,
}

/// Whether an ISO-8601 offset always shows its minutes.
#[derive(Clone, Copy, Debug, PartialEq, Eq, Structural)]
pub enum IsoMinutesSpec {
    Required,
    Optional,
}

/// Whether an ISO-8601 offset may show seconds.
#[derive(Clone, Copy, Debug, PartialEq, Eq, Structural)]
pub enum IsoSecondsSpec {
    Never,
    Optional,
}

/// What is shown where a zone has no name in the locale.
#[derive(Clone, Copy, Debug, PartialEq, Eq, Structural)]
pub enum FallbackSpec {
    Iso8601 { format: IsoFormatSpec, minutes: IsoMinutesSpec, seconds: IsoSecondsSpec },
    LocalizedGmt,
}

/// The form in which a zone is shown.
#[derive(Clone, Copy, Debug, PartialEq, Eq, Structural)]
pub enum IncludeSpec {
    Iso8601 { format: IsoFormatSpec, minutes: IsoMinutesSpec, seconds: IsoSecondsSpec },
    GenericLocation,
    GenericNonLocationLong,
    GenericNonLocationShort,
    LocalizedGmt,
    SpecificNonLocationLong,
    SpecificNonLocationShort,
}

/// Checks a number of seconds with `icu_timezone`'s
/// `GmtOffset::try_from_offset_seconds`, which accepts exactly those of at
/// most 18 hours either way, and hands the accepted number back.
#[verifier::external_body]
fn gmt_offset_from_seconds(seconds: i32) -> (r: Option<i32>)
    ensures
        r == (if is_utc_offset(seconds as int) {
            Some(seconds)
        } else {
            None
        }),
{
    GmtOffset::try_from_offset_seconds(seconds).ok().map(GmtOffset::offset_seconds)
}

/// The offset in seconds that `GmtOffset::try_from_bytes` reads from the
/// bytes of a text, if it reads one.
pub uninterp spec fn parsed_gmt_offset(text: Seq<char>) -> Option<i32>;

/// Reads an offset from GMT out of the bytes of a text with `icu_timezone`'s
/// `GmtOffset::try_from_bytes` and hands back its seconds. The parser ends
/// in the same range check as `GmtOffset::try_from_offset_seconds`.
#[verifier::external_body]
fn gmt_offset_from_bytes(text: &str) -> (r: Option<i32>)
    ensures
        r == parsed_gmt_offset(text@),
        r matches Some(seconds) ==> is_utc_offset(seconds as int),
{
    GmtOffset::try_from_bytes(text.as_bytes()).ok().map(GmtOffset::offset_seconds)
}

/// The offset in seconds that a caller's offset stands for.
pub open spec fn gmt_offset_seconds(offset: GmtOffsetSpecView) -> Option<i32> {
    match offset {
        GmtOffsetSpecView::OffsetSeconds(seconds) => if is_utc_offset(seconds as int) {
            Some(seconds)
        } else {
            None
        },
        GmtOffsetSpecView::Chars(text) => parsed_gmt_offset(text),
    }
}

/// The text fits the eight bytes of a BCP-47 time zone identifier: at most
/// eight characters, each of them ASCII and none the NUL character.
pub open spec fn is_bcp47_id(text: Seq<char>) -> bool {
    text.len() <= 8 && forall|i: int|
        0 <= i < text.len() ==> '\u{1}' <= #[trigger] text[i] && text[i] <= '\u{7f}'
}

/// The failure with which `TimeZoneBcp47Id::from_str` refuses a text, if it
/// refuses it.
pub uninterp spec fn bcp47_fault(text: Seq<char>) -> Option<TinyStrError>;

/// Reads a BCP-47 time zone identifier with `icu_timezone`'s
/// `TimeZoneBcp47Id::from_str` and hands its error on. The text is taken
/// where it fits `TinyAsciiStr<8>`: at most eight bytes, each of them ASCII
/// and none zero.
#[verifier::external_body]
fn check_bcp47_id(text: &str) -> (r: Result<(), TinyStrError>)
    ensures
        r is Ok <==> is_bcp47_id(text@),
        match r {
            Ok(_) => bcp47_fault(text@) is None,
            Err(e) => bcp47_fault(text@) == Some(e),
        },
{
    match text.parse::<TimeZoneBcp47Id>() {
        Ok(_) => Ok(()),
        Err(e) => Err(e),
    }
}

/// The BCP-47 identifier that `TimeZoneIdMapper::iana_to_bcp47` finds for an
/// IANA name, if it finds one.
pub uninterp spec fn mapped_iana(name: Seq<char>) -> Option<Seq<char>>;

/// Looks an IANA name up with `icu_timezone`'s
/// `TimeZoneIdMapper::iana_to_bcp47` and hands back the text of the
/// identifier found.
#[verifier::external_body]
fn iana_to_bcp47(name: &str) -> (r: Option<String>)
    ensures
        text_of(r) == mapped_iana(name@),
{
    let found = TimeZoneIdMapper::new().as_borrowed().iana_to_bcp47(name)?;
    Some(found.0.to_string())
}

/// The identifier of the zone, if one was given: a BCP-47 identifier as it
/// is, provided that it fits, which `is_bcp47_id` says; for an IANA name,
/// the identifier that it is mapped to.
pub open spec fn custom_zone_id(id: Option<TimezoneIdSpecView>) -> Result<
    Option<Seq<char>>,
    ErrorView,
> {
    match id {
        None => Ok(None),
        Some(TimezoneIdSpecView::Bcp47(id)) => match bcp47_fault(id) {
            None => Ok(Some(id)),
            Some(e) => Err(ErrorView::TinyStr(e, id)),
        },
        Some(TimezoneIdSpecView::Iana(name)) => match mapped_iana(name) {
            Some(id) => Ok(Some(id)),
            None => Err(ErrorView::IanaIdNotFound(name)),
        },
    }
}

/// The zone that a description gives, and the local date and time at which
/// its metazone is still to be worked out, if the description asks for
/// that. The offset is settled first, then the identifier, then the
/// metazone; the first failure is the result.
pub open spec fn custom_zone(spec: SpecView) -> Result<
    (CustomTimeZoneView, Option<DateTime>),
    ErrorView,
> {
    match gmt_offset_seconds(spec.offset) {
        None => Err(ErrorView::InvalidOffset),
        Some(seconds) => match custom_zone_id(spec.timezone_id) {
            Err(e) => Err(e),
            Ok(id) => match spec.metazone {
                None => Ok(
                    (
                        CustomTimeZoneView {
                            gmt_offset: Some(seconds),
                            time_zone_id: id,
                            metazone_id: None,
                            zone_variant: spec.zone_variant,
                        },
                        None,
                    ),
                ),
                Some(MetazoneSpecView::Id(metazone)) => Ok(
                    (
                        CustomTimeZoneView {
                            gmt_offset: Some(seconds),
                            time_zone_id: id,
                            metazone_id: Some(metazone),
                            zone_variant: spec.zone_variant,
                        },
                        None,
                    ),
                ),
                Some(MetazoneSpecView::LocalDate(at)) => match date_time_fault(at) {
                    Some(fault) => Err(ErrorView::DateRange(fault)),
                    None => Ok(
                        (
                            CustomTimeZoneView {
                                gmt_offset: Some(seconds),
                                time_zone_id: id,
                                metazone_id: None,
                                zone_variant: spec.zone_variant,
                            },
                            Some(
                                DateTime {
                                    date: crate::date::Date {
                                        year: at.year,
                                        month: at.month,
                                        day: at.day,
                                    },
                                    time: crate::time::Time {
                                        hour: at.hour,
                                        minute: at.minute,
                                        second: at.second,
                                        nanosecond: at.nanosecond,
                                    },
                                },
                            ),
                        ),
                    ),
                },
            },
        },
    }
}

impl TimezoneIdSpec {
    /// The BCP-47 identifier of the zone.
    pub fn to_bcp47(self) -> (r: Result<String, Error>)
        ensures
            self@ matches TimezoneIdSpecView::Bcp47(id) ==> (r is Ok <==> is_bcp47_id(id)),
            match r {
                Ok(id) => custom_zone_id(Some(self@)) == Ok::<Option<Seq<char>>, ErrorView>(
                    Some(id@),
                ),
                Err(e) => custom_zone_id(Some(self@)) == Err::<Option<Seq<char>>, ErrorView>(e@),
            },
    {
        match self {
            TimezoneIdSpec::Bcp47(id) => match check_bcp47_id(id.as_str()) {
                Ok(_) => Ok(id),
                Err(e) => Err(Error::TinyStr(e, id)),
            },
            TimezoneIdSpec::Iana(name) => match iana_to_bcp47(name.as_str()) {
                Some(id) => Ok(id),
                None => Err(Error::IanaIdNotFound(name)),
            },
        }
    }
}

impl CustomTimeZone {
    /// The zone that a description gives. Where the description asks for
    /// the metazone at a local date and time, the zone comes without a
    /// metazone and together with that date and time, checked, for the
    /// caller to work the metazone out.
    pub fn try_from(value: Spec) -> (r: Result<(CustomTimeZone, Option<DateTime>), Error>)
        ensures
            match r {
                Ok(found) => custom_zone(value@) == Ok::<
                    (CustomTimeZoneView, Option<DateTime>),
                    ErrorView,
                >((found.0@, found.1)) && (found.1 matches Some(at) ==> at.wf()),
                Err(e) => custom_zone(value@) == Err::<
                    (CustomTimeZoneView, Option<DateTime>),
                    ErrorView,
                >(e@),
            },
    {
        let Spec { offset, timezone_id, metazone, zone_variant } = value;
        let seconds = match offset.to_seconds() {
            Ok(seconds) => seconds,
            Err(e) => { return Err(e); },
        };
        let time_zone_id = match timezone_id {
            Some(id) => match id.to_bcp47() {
                Ok(id) => Some(id),
                Err(e) => { return Err(e); },
            },
            None => None,
        };
        let (metazone_id, at) = match metazone {
            Some(MetazoneSpec::Id(id)) => (Some(id), None),
            Some(MetazoneSpec::LocalDate(at)) => match DateTime::try_from(at) {
                Ok(at) => (None, Some(at)),
                Err(e) => { return Err(e); },
            },
            None => (None, None),
        };
        Ok((CustomTimeZone { gmt_offset: Some(seconds), time_zone_id, metazone_id, zone_variant }, at))
    }
}

impl GmtOffsetSpec {
    /// The offset in seconds, or `InvalidOffset` where the number is beyond
    /// 18 hours or the text cannot be read.
    pub fn to_seconds(&self) -> (r: Result<i32, Error>)
        ensures
            match r {
                Ok(seconds) => gmt_offset_seconds(self@) == Some(seconds) && is_utc_offset(
                    seconds as int,
                ),
                Err(e) => gmt_offset_seconds(self@) is None && e@ == ErrorView::InvalidOffset,
            },
    {
        let read = match self {
            GmtOffsetSpec::OffsetSeconds(seconds) => gmt_offset_from_seconds(*seconds),
            GmtOffsetSpec::Chars(text) => gmt_offset_from_bytes(text.as_str()),
        };
        match read {
            Some(seconds) => Ok(seconds),
            None => Err(Error::InvalidOffset),
        }
    }
}

} // verus!
