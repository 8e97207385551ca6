//! The description of a value to format, the complete value that it
//! resolves to, the test of that value against the fields a formatter is
//! asked to show, and the formatting itself.
use vstd::prelude::*;
use vstd::utf8::valid_utf8;
use crate::date::Date;
use crate::resolve::{agrees, resolve_zone, resolved, validate_date, validate_time};
use crate::time::Time;
use crate::zone::{
    is_utc_offset, offset_from_seconds, offset_from_str, parsed_offset, utc_zone, TimeZoneInfo,
    ZoneVariant, ZoneView,
};
use crate::{Error, ErrorView};
use icu_calendar::Date as IcuDate;
use icu_datetime::fieldsets::builder::{BuilderError, FieldSetBuilder};
use icu_datetime::fieldsets::enums::{
    CalendarPeriodFieldSet, CompositeFieldSet, DateAndTimeFieldSet, DateFieldSet, TimeFieldSet,
    ZoneFieldSet,
};
use icu_datetime::fieldsets::Combo;
use icu_datetime::{DateTimeFormatter, DateTimeFormatterLoadError};
use icu_locale_core::subtags::Subtag;
use icu_locale_core::{Locale, ParseError};
use icu_time::zone::{TimeZoneVariant, UtcOffset};
use icu_time::Time as IcuTime;
use icu_time::ZonedDateTime as IcuZonedDateTime;
use icu_time::{DateTime, TimeZone};
use writeable::Writeable;

verus! {

/// `icu_datetime`'s `CompositeFieldSet`: the fields that a formatter is asked
/// to show, sorted by which of date, time and zone are among them. What each
/// entry holds is declared below and is not read.
#[verifier::external_type_specification]
pub struct ExCompositeFieldSet(CompositeFieldSet);

/// `icu_datetime`'s `DateFieldSet`, carried through unread.
#[verifier::external_type_specification]
#[verifier::external_body]
pub struct ExDateFieldSet(DateFieldSet);

/// `icu_datetime`'s `CalendarPeriodFieldSet`, carried through unread.
#[verifier::external_type_specification]
#[verifier::external_body]
pub struct ExCalendarPeriodFieldSet(CalendarPeriodFieldSet);

/// `icu_datetime`'s `TimeFieldSet`, carried through unread.
#[verifier::external_type_specification]
#[verifier::external_body]
pub struct ExTimeFieldSet(TimeFieldSet);

/// `icu_datetime`'s `ZoneFieldSet`, carried through unread.
#[verifier::external_type_specification]
#[verifier::external_body]
pub struct ExZoneFieldSet(ZoneFieldSet);

/// `icu_datetime`'s `DateAndTimeFieldSet`, carried through unread.
#[verifier::external_type_specification]
#[verifier::external_body]
pub struct ExDateAndTimeFieldSet(DateAndTimeFieldSet);

/// `icu_datetime`'s `Combo`, a set of date or time fields joined with a set of
/// zone fields, carried through unread.
#[verifier::external_type_specification]
#[verifier::external_body]
#[verifier::reject_recursive_types(DT)]
#[verifier::reject_recursive_types(Z)]
pub struct ExCombo<DT, Z>(Combo<DT, Z>);

/// `icu_locale_core::Locale`, carried through unread.
#[verifier::external_type_specification]
#[verifier::external_body]
pub struct ExLocale(Locale);

/// What a caller says of the value to format. Every field may be left out,
/// within two rules: year, month and day come together or not at all, and
/// minute, second and nanosecond come only with an hour.
#[derive(Debug)]
pub struct Spec {
    pub year: Option<i32>,
    pub month: Option<u8>,
    pub day: Option<u8>,
    pub hour: Option<u8>,
    pub minute: Option<u8>,
    pub second: Option<u8>,
    pub nanosecond: Option<u32>,
    pub zone: Option<TimezoneSpec>,
}

/// What a caller says of the time zone: an offset from UTC, and the zone's
/// identity either as an IANA name or as a BCP-47 identifier.
#[derive(Debug)]
pub struct TimezoneSpec {
    pub offset: Option<UtcOffsetSpec>,
    pub iana: Option<String>,
    pub bcp47: Option<String>,
}

/// An offset from UTC, as a number of seconds or as a text such as `+05:30`.
#[derive(Debug)]
pub enum UtcOffsetSpec {
    OffsetSeconds(i32),
    Chars(String),
}

/// A `UtcOffsetSpec` with its text as a sequence of characters.
pub ghost enum UtcOffsetSpecView {
    OffsetSeconds(i32),
    Chars(Seq<char>),
}

/// A `TimezoneSpec` with its texts as sequences of characters.
pub ghost struct TimezoneSpecView {
    pub offset: Option<UtcOffsetSpecView>,
    pub iana: Option<Seq<char>>,
    pub bcp47: Option<Seq<char>>,
}

/// A `Spec` with its texts as sequences of characters.
pub ghost struct SpecView {
    pub year: Option<i32>,
    pub month: Option<u8>,
    pub day: Option<u8>,
    pub hour: Option<u8>,
    pub minute: Option<u8>,
    pub second: Option<u8>,
    pub nanosecond: Option<u32>,
    pub zone: Option<TimezoneSpecView>,
}

/// The characters of a text that may be absent.
pub open spec fn text_of(text: Option<String>) -> Option<Seq<char>> {
    match text {
        Some(t) => Some(t@),
        None => None,
    }
}

impl View for UtcOffsetSpec {
    type V = UtcOffsetSpecView;

    open spec fn view(&self) -> UtcOffsetSpecView {
        match *self {
            UtcOffsetSpec::OffsetSeconds(seconds) => UtcOffsetSpecView::OffsetSeconds(seconds),
            UtcOffsetSpec::Chars(text) => UtcOffsetSpecView::Chars(text@),
        }
    }
}

impl View for TimezoneSpec {
    type V = TimezoneSpecView;

    open spec fn view(&self) -> TimezoneSpecView {
        TimezoneSpecView {
            offset: match self.offset {
                Some(o) => Some(o@),
                None => None,
            },
            iana: text_of(self.iana),
            bcp47: text_of(self.bcp47),
        }
    }
}

impl View for Spec {
    type V = SpecView;

    open spec fn view(&self) -> SpecView {
        SpecView {
            year: self.year,
            month: self.month,
            day: self.day,
            hour: self.hour,
            minute: self.minute,
            second: self.second,
            nanosecond: self.nanosecond,
            zone: match self.zone {
                Some(z) => Some(z@),
                None => None,
            },
        }
    }
}

/// The view of a zone description that may be absent.
pub open spec fn zone_of(zone: Option<TimezoneSpec>) -> Option<TimezoneSpecView> {
    match zone {
        Some(z) => Some(z@),
        None => None,
    }
}

/// The offset in seconds that a caller's offset stands for: a number of
/// seconds within 18 hours of UTC, or what a text is read as.
pub open spec fn offset_seconds(offset: UtcOffsetSpecView) -> Option<i32> {
    match offset {
        UtcOffsetSpecView::OffsetSeconds(seconds) => if is_utc_offset(seconds as int) {
            Some(seconds)
        } else {
            None
        },
        UtcOffsetSpecView::Chars(text) => parsed_offset(text),
    }
}

impl UtcOffsetSpec {
    /// The offset in seconds, or `InvalidOffset` where the number is beyond
    /// 18 hours or the text cannot be read.
    pub fn to_seconds(&self) -> (r: Result<i32, Error>)
        ensures
            match r {
                Ok(seconds) => offset_seconds(self@) == Some(seconds) && is_utc_offset(
                    seconds as int,
                ),
                Err(e) => offset_seconds(self@) is None && e@ == ErrorView::InvalidOffset,
            },
    {
        let read = match self {
            UtcOffsetSpec::OffsetSeconds(seconds) => offset_from_seconds(*seconds),
            UtcOffsetSpec::Chars(text) => offset_from_str(text.as_str()),
        };
        match read {
            Some(seconds) => Ok(seconds),
            None => Err(Error::InvalidOffset),
        }
    }
}

/// A date, a time of day and a time zone.
#[derive(Debug)]
pub struct ZonedDateTime {
    pub date: Date,
    pub time: Time,
    pub zone: TimeZoneInfo,
}

/// A complete value together with the record of which of its parts the
/// caller gave. A part that was not given holds a stand-in: the epoch,
/// midnight, UTC.
#[derive(Debug)]
pub struct SpecifiedZonedDateTime {
    pub value: ZonedDateTime,
    has_date: bool,
    has_time: bool,
    has_zone: bool,
}

/// A `SpecifiedZonedDateTime` as contracts speak of it.
pub ghost struct SpecifiedView {
    pub date: Date,
    pub time: Time,
    pub zone: ZoneView,
    pub has_date: bool,
    pub has_time: bool,
    pub has_zone: bool,
}

impl View for SpecifiedZonedDateTime {
    type V = SpecifiedView;

    closed spec fn view(&self) -> SpecifiedView {
        SpecifiedView {
            date: self.value.date,
            time: self.value.time,
            zone: self.value.zone@,
            has_date: self.has_date,
            has_time: self.has_time,
            has_zone: self.has_zone,
        }
    }
}

impl SpecifiedView {
    /// The parts are in range, and a part that was not given is its
    /// stand-in.
    pub open spec fn wf(self) -> bool {
        &&& self.date.wf()
        &&& self.time.wf()
        &&& self.zone.wf()
        &&& !self.has_date ==> self.date == Date::epoch()
        &&& !self.has_time ==> self.time == Time::start_of_day()
        &&& !self.has_zone ==> self.zone == utc_zone()
    }
}

/// Whether a value holds every part that a set of fields shows: a date for
/// a date or a calendar period, a time for a time, a zone for a zone, and
/// each of them for a set that joins several. A set of any other sort, if
/// there were one, would not pass.
pub open spec fn shows(value: SpecifiedView, set: CompositeFieldSet) -> bool {
    match set {
        CompositeFieldSet::Date(_) => value.has_date,
        CompositeFieldSet::CalendarPeriod(_) => value.has_date,
        CompositeFieldSet::Time(_) => value.has_time,
        CompositeFieldSet::Zone(_) => value.has_zone,
        CompositeFieldSet::DateTime(_) => value.has_date && value.has_time,
        CompositeFieldSet::DateZone(_) => value.has_date && value.has_zone,
        CompositeFieldSet::TimeZone(_) => value.has_time && value.has_zone,
        CompositeFieldSet::DateTimeZone(_) => value.has_date && value.has_time && value.has_zone,
        _ => false,
    }
}

/// A set of fields that shows a part of the date.
pub open spec fn shows_date(set: CompositeFieldSet) -> bool {
    set is Date || set is CalendarPeriod || set is DateTime || set is DateZone
        || set is DateTimeZone
}

/// A set of fields that shows a part of the time of day.
pub open spec fn shows_time(set: CompositeFieldSet) -> bool {
    set is Time || set is DateTime || set is TimeZone || set is DateTimeZone
}

/// A set of fields that shows the time zone.
pub open spec fn shows_zone(set: CompositeFieldSet) -> bool {
    set is Zone || set is DateZone || set is TimeZone || set is DateTimeZone
}

impl SpecifiedZonedDateTime {
    /// The parts are in range, and a part that was not given is its
    /// stand-in.
    pub open spec fn wf(&self) -> bool {
        self@.wf()
    }

    /// The date, the time and the zone.
    pub fn value(&self) -> (r: &ZonedDateTime)
        ensures
            r.date == self@.date,
            r.time == self@.time,
            r.zone@ == self@.zone,
    {
        &self.value
    }

    /// Whether the caller gave a date.
    pub fn has_date(&self) -> (r: bool)
        ensures
            r == self@.has_date,
    {
        self.has_date
    }

    /// Whether the caller gave a time of day.
    pub fn has_time(&self) -> (r: bool)
        ensures
            r == self@.has_time,
    {
        self.has_time
    }

    /// Whether the caller gave a time zone.
    pub fn has_zone(&self) -> (r: bool)
        ensures
            r == self@.has_zone,
    {
        self.has_zone
    }

    /// Resolves a description into a complete value, or says why it
    /// cannot be resolved.
    pub fn try_from(value: Spec) -> (r: Result<SpecifiedZonedDateTime, Error>)
        ensures
            match r {
                Ok(v) => resolved(value@) == Ok::<SpecifiedView, ErrorView>(v@) && v.wf()
                    && agrees(value@.zone, v@.zone),
                Err(e) => resolved(value@) == Err::<SpecifiedView, ErrorView>(e@),
            },
    {
        let Spec { year, month, day, hour, minute, second, nanosecond, zone } = value;
        let (has_date, date) = match validate_date(year, month, day) {
            Ok(part) => part,
            Err(e) => { return Err(e); },
        };
        let (has_time, time) = match validate_time(hour, minute, second, nanosecond) {
            Ok(part) => part,
            Err(e) => { return Err(e); },
        };
        let (has_zone, zone) = match resolve_zone(zone, has_date, date, time) {
            Ok(part) => part,
            Err(e) => { return Err(e); },
        };
        Ok(
            SpecifiedZonedDateTime {
                value: ZonedDateTime { date, time, zone },
                has_date,
                has_time,
                has_zone,
            },
        )
    }

    /// Whether the value holds every part that `set` shows.
    pub fn check_fieldset(&self, set: &CompositeFieldSet) -> (r: bool)
        ensures
            r == shows(self@, *set),
    {
        match set {
            CompositeFieldSet::Date(_) => self.has_date,
            CompositeFieldSet::CalendarPeriod(_) => self.has_date,
            CompositeFieldSet::Time(_) => self.has_time,
            CompositeFieldSet::Zone(_) => self.has_zone,
            CompositeFieldSet::DateTime(_) => self.has_date && self.has_time,
            CompositeFieldSet::DateZone(_) => self.has_date && self.has_zone,
            CompositeFieldSet::TimeZone(_) => self.has_time && self.has_zone,
            CompositeFieldSet::DateTimeZone(_) => self.has_date && self.has_time && self.has_zone,
            // There is no other set of fields: this arm is never taken.
            _ => {
                assert(false);
                false
            },
        }
    }
}

/// What is let through to the formatter: the value that a description
/// resolves to, provided that it holds every part that the set of fields
/// shows. Where it lacks one, the failure is `MissingValues`.
pub open spec fn admitted(spec: SpecView, set: CompositeFieldSet) -> Result<
    SpecifiedView,
    ErrorView,
> {
    match resolved(spec) {
        Err(e) => Err(e),
        Ok(value) => if shows(value, set) {
            Ok(value)
        } else {
            Err(ErrorView::MissingValues)
        },
    }
}

/// Resolves a description and admits the value only if it holds every part
/// that `set` shows.
pub fn resolve_for(spec: Spec, set: &CompositeFieldSet) -> (r: Result<SpecifiedZonedDateTime, Error>)
    ensures
        match r {
            Ok(v) => admitted(spec@, *set) == Ok::<SpecifiedView, ErrorView>(v@) && v.wf()
                && agrees(spec@.zone, v@.zone),
            Err(e) => admitted(spec@, *set) == Err::<SpecifiedView, ErrorView>(e@),
        },
{
    let value = match SpecifiedZonedDateTime::try_from(spec) {
        Ok(value) => value,
        Err(e) => { return Err(e); },
    };
    if !value.check_fieldset(set) {
        return Err(Error::MissingValues);
    }
    Ok(value)
}

/// What `Locale::try_from_str` reads a locale identifier as.
pub uninterp spec fn parsed_locale(text: Seq<char>) -> Result<Locale, ParseError>;

/// Reads a locale identifier with `icu_locale_core`'s `Locale::try_from_str`.
#[verifier::external_body]
pub(crate) fn parse_locale(text: &str) -> (r: Result<Locale, ParseError>)
    ensures
        r == parsed_locale(text@),
{
    Locale::try_from_str(text)
}

/// The set of fields that `FieldSetBuilder::build_composite` makes of a
/// builder's options, or its reason for making none.
pub uninterp spec fn composite_of(builder: FieldSetBuilder) -> Result<
    CompositeFieldSet,
    BuilderError,
>;

/// `icu_datetime`'s `FieldSetBuilder::build_composite` turns the options into
/// a set of fields, or refuses them. It sorts the options by which of the
/// date fields, the time precision and the zone style are given, and a set
/// that it makes shows exactly those parts.
pub assume_specification[ FieldSetBuilder::build_composite ](builder: FieldSetBuilder) -> (r:
    Result<CompositeFieldSet, BuilderError>)
    ensures
        r == composite_of(builder),
        r matches Ok(set) ==> {
            &&& shows_date(set) == builder.date_fields is Some
            &&& shows_time(set) == builder.time_precision is Some
            &&& shows_zone(set) == builder.zone_style is Some
        },
;

/// The text, in UTF-8, that a formatter for a locale and a set of fields
/// writes for a value, or the reason for which no such formatter could be
/// set up.
pub uninterp spec fn formatted(
    locale: Locale,
    fields: CompositeFieldSet,
    date: Date,
    time: Time,
    zone: ZoneView,
) -> Result<Seq<u8>, DateTimeFormatterLoadError>;

/// Sets up `icu_datetime`'s `DateTimeFormatter` for the locale and the fields
/// with `DateTimeFormatter::try_new`, hands it the value as a
/// `ZonedDateTime` of `icu_time`, and writes what `format` returns into a
/// `String`, whose bytes are the result and so are UTF-8. The zone is joined
/// from its parts as `icu_time` asks: identifier, offset, date and time,
/// variant. On the way `icu_time` counts the milliseconds from 1970 to the
/// date in 64 bits, which the years of a well-formed date cannot overflow.
#[allow(deprecated)]
#[verifier::external_body]
fn format_value(locale: Locale, fields: CompositeFieldSet, value: &ZonedDateTime) -> (r: Result<
    Vec<u8>,
    DateTimeFormatterLoadError,
>)
    requires
        value.date.wf(),
        value.time.wf(),
        value.zone.wf(),
    ensures
        match r {
            Ok(text) => formatted(locale, fields, value.date, value.time, value.zone@) == Ok::<
                Seq<u8>,
                DateTimeFormatterLoadError,
            >(text@),
            Err(e) => formatted(locale, fields, value.date, value.time, value.zone@) == Err::<
                Seq<u8>,
                DateTimeFormatterLoadError,
            >(e),
        },
        r matches Ok(text) ==> valid_utf8(text@),
{
    let formatter = DateTimeFormatter::try_new(locale.into(), fields)?;
    let (d, t, z) = (value.date, value.time, &value.zone);
    let date = IcuDate::try_new_iso(d.year, d.month, d.day).unwrap();
    let time = IcuTime::try_new(t.hour, t.minute, t.second, t.nanosecond).unwrap();
    let variant = TimeZoneVariant::from_rearguard_isdst(z.variant == ZoneVariant::Daylight);
    let zone = TimeZone(Subtag::try_from_str(&z.id).unwrap())
        .with_offset(z.offset.map(UtcOffset::from_seconds_unchecked))
        .at_date_time_iso(DateTime { date, time })
        .with_variant(variant);
    let zoned = IcuZonedDateTime { date, time, zone };
    Ok(formatter.format(&zoned).write_to_string().into_owned().into_bytes())
}

/// What formatting a description comes to. The locale is read first, then
/// the options are turned into a set of fields, then the description is
/// resolved and held against that set, and last the formatter is set up and
/// writes the value. The first failure is the result.
pub open spec fn format_result(spec: SpecView, locale: Seq<char>, builder: FieldSetBuilder) -> Result<
    Seq<u8>,
    ErrorView,
> {
    match parsed_locale(locale) {
        Err(e) => Err(ErrorView::IcuLocaleParse(e)),
        Ok(locale) => match composite_of(builder) {
            Err(e) => Err(ErrorView::CompositeError(e)),
            Ok(fields) => match admitted(spec, fields) {
                Err(e) => Err(e),
                Ok(value) => match formatted(locale, fields, value.date, value.time, value.zone) {
                    Err(e) => Err(ErrorView::LoadDateTimeFormatter(e)),
                    Ok(text) => Ok(text),
                },
            },
        },
    }
}

/// Formats what `spec` describes, for the locale named by `locale`, showing
/// the fields that `builder` asks for. The result is the text in UTF-8. It
/// comes only where the description gives every part that the options ask
/// for: a date for date fields, an hour for a time precision, a zone for a
/// zone style.
pub fn format(spec: Spec, locale: &str, builder: FieldSetBuilder) -> (r: Result<Vec<u8>, Error>)
    ensures
        match r {
            Ok(text) => format_result(spec@, locale@, builder) == Ok::<Seq<u8>, ErrorView>(text@),
            Err(e) => format_result(spec@, locale@, builder) == Err::<Seq<u8>, ErrorView>(e@),
        },
        r matches Ok(text) ==> valid_utf8(text@),
        r is Ok ==> {
            &&& builder.date_fields is Some ==> spec@.year is Some && spec@.month is Some
                && spec@.day is Some
            &&& builder.time_precision is Some ==> spec@.hour is Some
            &&& builder.zone_style is Some ==> spec@.zone is Some
        },
{
    let locale = match parse_locale(locale) {
        Ok(locale) => locale,
        Err(e) => { return Err(Error::IcuLocaleParse(e)); },
    };
    let fields = match builder.build_composite() {
        Ok(fields) => fields,
        Err(e) => { return Err(Error::CompositeError(e)); },
    };
    let value = match resolve_for(spec, &fields) {
        Ok(value) => value,
        Err(e) => { return Err(e); },
    };
    match format_value(locale, fields, &value.value) {
        Ok(text) => Ok(text),
        Err(e) => Err(Error::LoadDateTimeFormatter(e)),
    }
}

/// A value that holds what a set with date, time and zone shows holds what
/// any other set shows: a date alone, a calendar period, a time alone, a
/// zone alone, or any two of date, time and zone.
pub proof fn lemma_field_sets_are_monotonic(
    value: SpecifiedView,
    all: CompositeFieldSet,
    part: CompositeFieldSet,
)
    requires
        all is DateTimeZone,
        shows(value, all),
    ensures
        shows(value, part),
{
}

/// A description that gives none of year, month and day resolves, if it
/// resolves at all, to a value without a date, which holds the epoch in its
/// place; and no set of fields that shows a part of the date is admitted
/// for it: the failure is `MissingValues`.
pub proof fn lemma_no_date_is_missing(spec: SpecView, set: CompositeFieldSet)
    requires
        spec.year is None,
        spec.month is None,
        spec.day is None,
        resolved(spec) is Ok,
        shows_date(set),
    ensures
        !resolved(spec)->Ok_0.has_date,
        resolved(spec)->Ok_0.date == Date::epoch(),
        admitted(spec, set) == Err::<SpecifiedView, ErrorView>(ErrorView::MissingValues),
{
}

/// Formatting a description that gives no date, for fields that show a part
/// of the date, fails with `MissingValues`, provided that the locale can be
/// read, the options make those fields and the description resolves.
pub proof fn lemma_format_needs_a_date(
    spec: SpecView,
    locale: Seq<char>,
    builder: FieldSetBuilder,
    fields: CompositeFieldSet,
)
    requires
        spec.year is None,
        spec.month is None,
        spec.day is None,
        resolved(spec) is Ok,
        parsed_locale(locale) is Ok,
        composite_of(builder) == Ok::<CompositeFieldSet, BuilderError>(fields),
        shows_date(fields),
    ensures
        format_result(spec, locale, builder) == Err::<Seq<u8>, ErrorView>(
            ErrorView::MissingValues,
        ),
{
}

/// Formatting a description that resolves to a value which holds every
/// part that the fields show fails only if the formatter cannot be set up,
/// and gives the formatter's text for that value otherwise. A description
/// with an hour and a zone is such a one for every set of fields that shows
/// a time and a zone and no date.
pub proof fn lemma_format_of_a_shown_value(
    spec: SpecView,
    locale: Seq<char>,
    builder: FieldSetBuilder,
    read: Locale,
    fields: CompositeFieldSet,
    value: SpecifiedView,
)
    requires
        parsed_locale(locale) == Ok::<Locale, ParseError>(read),
        composite_of(builder) == Ok::<CompositeFieldSet, BuilderError>(fields),
        resolved(spec) == Ok::<SpecifiedView, ErrorView>(value),
        shows(value, fields) || (fields is TimeZone && spec.hour is Some && spec.zone is Some),
    ensures
        format_result(spec, locale, builder) == match formatted(
            read,
            fields,
            value.date,
            value.time,
            value.zone,
        ) {
            Ok(text) => Ok::<Seq<u8>, ErrorView>(text),
            Err(e) => Err::<Seq<u8>, ErrorView>(ErrorView::LoadDateTimeFormatter(e)),
        },
{
}

} // verus!
