//! The options of a formatter as a caller writes them, and their passage
//! into the builder of a set of fields.
use vstd::prelude::*;
use vstd::std_specs::convert::FromSpecImpl;
use icu_datetime::fieldsets::builder::{DateFields, FieldSetBuilder, ZoneStyle};
use icu_datetime::options::{Alignment, Length, SubsecondDigits, TimePrecision, YearStyle};

verus! {

/// `icu_datetime::options::Length`, a plain list.
#[verifier::external_type_specification]
pub struct ExLength(Length);

/// `icu_datetime::options::Alignment`, a plain list.
#[verifier::external_type_specification]
pub struct ExAlignment(Alignment);

/// `icu_datetime::options::YearStyle`, a plain list.
#[verifier::external_type_specification]
pub struct ExYearStyle(YearStyle);

/// `icu_datetime::options::SubsecondDigits`, a plain list.
#[verifier::external_type_specification]
pub struct ExSubsecondDigits(SubsecondDigits);

/// `icu_datetime::options::TimePrecision`: a list, one entry of which holds
/// a number of digits.
#[verifier::external_type_specification]
pub struct ExTimePrecision(TimePrecision);

/// `icu_datetime`'s `DateFields`, a plain list.
#[verifier::external_type_specification]
pub struct ExDateFields(DateFields);

/// `icu_datetime`'s `ZoneStyle`, a plain list.
#[verifier::external_type_specification]
pub struct ExZoneStyle(ZoneStyle);

/// `icu_datetime`'s `FieldSetBuilder`: six options, each of which may be
/// left out, in six public fields.
#[verifier::external_type_specification]
pub struct ExFieldSetBuilder(FieldSetBuilder);

/// `FieldSetBuilder::new` is the builder's default value, in which every
/// option is left out.
pub assume_specification[ FieldSetBuilder::new ]() -> (builder: FieldSetBuilder)
    ensures
        builder.length is None,
        builder.date_fields is None,
        builder.time_precision is None,
        builder.zone_style is None,
        builder.alignment is None,
        builder.year_style is None,
;

/// The options of a formatter as a caller writes them.
#[derive(Clone, Copy, Debug)]
pub struct FieldSetBuilderSerde {
    pub length: Option<Length>,
    pub date_fields: Option<DateFields>,
    pub time_precision: Option<TimePrecisionSerde>,
    pub zone_style: Option<ZoneStyleSerde>,
    pub alignment: Option<Alignment>,
    pub year_style: Option<YearStyleSerde>,
}

/// How the year is shown.
#[derive(Clone, Copy, Debug, PartialEq, Eq, Structural)]
pub enum YearStyleSerde {
    Auto,
    Full,
    WithEra,
}

/// How the time zone is shown.
#[derive(Clone, Copy, Debug, PartialEq, Eq, Structural)]
pub enum ZoneStyleSerde {
    SpecificLong,
    SpecificShort,
    LocalizedOffsetLong,
    LocalizedOffsetShort,
    GenericLong,
    GenericShort,
    Location,
    ExemplarCity,
}

/// The smallest unit of time that is shown; for fractions of a second, the
/// number of digits.
#[derive(Clone, Copy, Debug, PartialEq, Eq, Structural)]
pub enum TimePrecisionSerde {
    Hour,
    Minute,
    Second,
    Subsecond1,
    Subsecond2,
    Subsecond3,
    Subsecond4,
    Subsecond5,
    Subsecond6,
    Subsecond7,
    Subsecond8,
    Subsecond9,
    MinuteOptional,
}

impl From<YearStyleSerde> for YearStyle {
    fn from(value: YearStyleSerde) -> (r: YearStyle) {
        match value {
            YearStyleSerde::Auto => YearStyle::Auto,
            YearStyleSerde::Full => YearStyle::Full,
            YearStyleSerde::WithEra => YearStyle::WithEra,
        }
    }
}

/// The outside library's entry of the same name.
pub open spec fn year_style(value: YearStyleSerde) -> YearStyle {
    match value {
        YearStyleSerde::Auto => YearStyle::Auto,
        YearStyleSerde::Full => YearStyle::Full,
        YearStyleSerde::WithEra => YearStyle::WithEra,
    }
}

impl FromSpecImpl<YearStyleSerde> for YearStyle {
    open spec fn obeys_from_spec() -> bool {
        true
    }

    open spec fn from_spec(value: YearStyleSerde) -> YearStyle {
        year_style(value)
    }
}

impl From<ZoneStyleSerde> for ZoneStyle {
    fn from(value: ZoneStyleSerde) -> (r: ZoneStyle) {
        match value {
            ZoneStyleSerde::SpecificLong => ZoneStyle::SpecificLong,
            ZoneStyleSerde::SpecificShort => ZoneStyle::SpecificShort,
            ZoneStyleSerde::LocalizedOffsetLong => ZoneStyle::LocalizedOffsetLong,
            ZoneStyleSerde::LocalizedOffsetShort => ZoneStyle::LocalizedOffsetShort,
            ZoneStyleSerde::GenericLong => ZoneStyle::GenericLong,
            ZoneStyleSerde::GenericShort => ZoneStyle::GenericShort,
            ZoneStyleSerde::Location => ZoneStyle::Location,
            ZoneStyleSerde::ExemplarCity => ZoneStyle::ExemplarCity,
        }
    }
}

/// The outside library's entry of the same name.
pub open spec fn zone_style(value: ZoneStyleSerde) -> ZoneStyle {
    match value {
        ZoneStyleSerde::SpecificLong => ZoneStyle::SpecificLong,
        ZoneStyleSerde::SpecificShort => ZoneStyle::SpecificShort,
        ZoneStyleSerde::LocalizedOffsetLong => ZoneStyle::LocalizedOffsetLong,
        ZoneStyleSerde::LocalizedOffsetShort => ZoneStyle::LocalizedOffsetShort,
        ZoneStyleSerde::GenericLong => ZoneStyle::GenericLong,
        ZoneStyleSerde::GenericShort => ZoneStyle::GenericShort,
        ZoneStyleSerde::Location => ZoneStyle::Location,
        ZoneStyleSerde::ExemplarCity => ZoneStyle::ExemplarCity,
    }
}

impl FromSpecImpl<ZoneStyleSerde> for ZoneStyle {
    open spec fn obeys_from_spec() -> bool {
        true
    }

    open spec fn from_spec(value: ZoneStyleSerde) -> ZoneStyle {
        zone_style(value)
    }
}

impl From<TimePrecisionSerde> for TimePrecision {
    fn from(value: TimePrecisionSerde) -> (r: TimePrecision) {
        match value {
            TimePrecisionSerde::Hour => TimePrecision::Hour,
            TimePrecisionSerde::Minute => TimePrecision::Minute,
            TimePrecisionSerde::Second => TimePrecision::Second,
            TimePrecisionSerde::Subsecond1 => TimePrecision::Subsecond(SubsecondDigits::S1),
            TimePrecisionSerde::Subsecond2 => TimePrecision::Subsecond(SubsecondDigits::S2),
            TimePrecisionSerde::Subsecond3 => TimePrecision::Subsecond(SubsecondDigits::S3),
            TimePrecisionSerde::Subsecond4 => TimePrecision::Subsecond(SubsecondDigits::S4),
            TimePrecisionSerde::Subsecond5 => TimePrecision::Subsecond(SubsecondDigits::S5),
            TimePrecisionSerde::Subsecond6 => TimePrecision::Subsecond(SubsecondDigits::S6),
            TimePrecisionSerde::Subsecond7 => TimePrecision::Subsecond(SubsecondDigits::S7),
            TimePrecisionSerde::Subsecond8 => TimePrecision::Subsecond(SubsecondDigits::S8),
            TimePrecisionSerde::Subsecond9 => TimePrecision::Subsecond(SubsecondDigits::S9),
            TimePrecisionSerde::MinuteOptional => TimePrecision::MinuteOptional,
        }
    }
}

/// The outside library's entry of the same name, the number of digits moved
/// out of the name.
pub open spec fn time_precision(value: TimePrecisionSerde) -> TimePrecision {
    match value {
        TimePrecisionSerde::Hour => TimePrecision::Hour,
        TimePrecisionSerde::Minute => TimePrecision::Minute,
        TimePrecisionSerde::Second => TimePrecision::Second,
        TimePrecisionSerde::Subsecond1 => TimePrecision::Subsecond(SubsecondDigits::S1),
        TimePrecisionSerde::Subsecond2 => TimePrecision::Subsecond(SubsecondDigits::S2),
        TimePrecisionSerde::Subsecond3 => TimePrecision::Subsecond(SubsecondDigits::S3),
        TimePrecisionSerde::Subsecond4 => TimePrecision::Subsecond(SubsecondDigits::S4),
        TimePrecisionSerde::Subsecond5 => TimePrecision::Subsecond(SubsecondDigits::S5),
        TimePrecisionSerde::Subsecond6 => TimePrecision::Subsecond(SubsecondDigits::S6),
        TimePrecisionSerde::Subsecond7 => TimePrecision::Subsecond(SubsecondDigits::S7),
        TimePrecisionSerde::Subsecond8 => TimePrecision::Subsecond(SubsecondDigits::S8),
        TimePrecisionSerde::Subsecond9 => TimePrecision::Subsecond(SubsecondDigits::S9),
        TimePrecisionSerde::MinuteOptional => TimePrecision::MinuteOptional,
    }
}

impl FromSpecImpl<TimePrecisionSerde> for TimePrecision {
    open spec fn obeys_from_spec() -> bool {
        true
    }

    open spec fn from_spec(value: TimePrecisionSerde) -> TimePrecision {
        time_precision(value)
    }
}

impl From<FieldSetBuilderSerde> for FieldSetBuilder {
    fn from(value: FieldSetBuilderSerde) -> (r: FieldSetBuilder)
        ensures
            holds_options(r, value),
    {
        let mut builder = FieldSetBuilder::new();
        builder.length = value.length;
        builder.date_fields = value.date_fields;
        builder.time_precision = match value.time_precision {
            Some(precision) => Some(TimePrecision::from(precision)),
            None => None,
        };
        builder.zone_style = match value.zone_style {
            Some(style) => Some(ZoneStyle::from(style)),
            None => None,
        };
        builder.alignment = value.alignment;
        builder.year_style = match value.year_style {
            Some(style) => Some(YearStyle::from(style)),
            None => None,
        };
        assert(holds_options(builder, value));
        builder
    }
}

/// A builder holds the options that were written, each one passed on as
/// it is or as the outside library's entry of the same name.
pub open spec fn holds_options(builder: FieldSetBuilder, options: FieldSetBuilderSerde) -> bool {
    &&& builder.length == options.length
    &&& builder.date_fields == options.date_fields
    &&& builder.time_precision == match options.time_precision {
        Some(precision) => Some(time_precision(precision)),
        None => None,
    }
    &&& builder.zone_style == match options.zone_style {
        Some(style) => Some(zone_style(style)),
        None => None,
    }
    &&& builder.alignment == options.alignment
    &&& builder.year_style == match options.year_style {
        Some(style) => Some(year_style(style)),
        None => None,
    }
}

impl FromSpecImpl<FieldSetBuilderSerde> for FieldSetBuilder {
    open spec fn obeys_from_spec() -> bool {
        true
    }

    open spec fn from_spec(value: FieldSetBuilderSerde) -> FieldSetBuilder {
        choose|builder: FieldSetBuilder| holds_options(builder, value)
    }
}

} // verus!
