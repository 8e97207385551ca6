//! Resolution of partially specified dates, times and time zones into
//! consistent values, and the rules that decide what can be formatted
//! from them.
//!
//! A caller describes a value by a [`format::Spec`], in which any of date,
//! time and zone may be missing. [`format::SpecifiedZonedDateTime::try_from`]
//! resolves the description: it refuses half-given dates and times, settles
//! the identity of the zone, and decides between the zone's standard and
//! daylight variant from the offset that the caller gave. The value that
//! comes out records which of its parts were given, and
//! [`format::SpecifiedZonedDateTime::check_fieldset`] holds that record
//! against the fields that a formatter is asked to show.
//! [`format::format`] does all of it and formats the value.
//! [`pattern::resolve_calendar_kind`] settles the calendar for a locale.
//!
//! Dates, times, zone data and the formatting itself come from the ICU4X
//! crates. Each call into them stands in a small function whose contract is
//! taken on trust and says what the call is relied on to do.
use vstd::prelude::*;
use icu_calendar::RangeError;
use icu_locale_core::ParseError;
use tinystr::TinyStrError;
use icu_datetime::DateTimeFormatterLoadError;
use icu_datetime::fieldsets::builder::BuilderError;
use icu_datetime::provider::pattern::PatternError;
use vstd::string::StringExecFns;
use crate::zone::UtcOffsets;

pub mod date;
pub mod datetime;
pub mod format;
pub mod pattern;
pub mod resolve;
pub mod serde;
pub mod timezone;
pub mod time;
pub mod zone;
pub mod zoned_datetime;

verus! {

/// `icu_calendar::RangeError`: the name of a field, the value that was
/// given for it and the bounds that it broke. All four fields are public in
/// the outside crate and are read as they are.
#[verifier::external_type_specification]
pub struct ExRangeError(RangeError);

/// `icu_locale_core::ParseError`, a plain list of failures.
#[verifier::external_type_specification]
pub struct ExParseError(ParseError);

/// `tinystr::TinyStrError`, a plain list of failures, one of which holds two
/// lengths.
#[verifier::external_type_specification]
pub struct ExTinyStrError(TinyStrError);

/// `icu_datetime::DateTimeFormatterLoadError`, carried through unread.
#[verifier::external_type_specification]
#[verifier::external_body]
pub struct ExDateTimeFormatterLoadError(DateTimeFormatterLoadError);

/// `icu_datetime`'s `PatternError`, carried through unread.
#[verifier::external_type_specification]
#[verifier::external_body]
pub struct ExPatternError(PatternError);

/// `icu_datetime::fieldsets::builder::BuilderError`, carried through unread.
#[verifier::external_type_specification]
#[verifier::external_body]
pub struct ExBuilderError(BuilderError);

/// The ways in which a request fails. None of them is retried: each one
/// rejects the input for good.
#[derive(Debug)]
pub enum Error {
    /// The locale identifier could not be read.
    IcuLocaleParse(ParseError),
    /// The BCP-47 time zone identifier, kept as the second field, could not
    /// be read.
    Bcp47(ParseError, String),
    /// The text, kept as the second field, does not fit a short ASCII
    /// identifier.
    TinyStr(TinyStrError, String),
    /// The formatter could not be set up for the locale and the fields.
    LoadDateTimeFormatter(DateTimeFormatterLoadError),
    /// The formatting options do not add up to a set of fields.
    CompositeError(BuilderError),
    /// The pattern could not be read.
    Pattern(PatternError),
    /// A field of the date or of the time is outside its bounds.
    DateRange(RangeError),
    /// Some of year, month and day were given, but not all three.
    PartialDate,
    /// A minute, second or nanosecond was given without an hour.
    PartialTime,
    /// The IANA name belongs to no known time zone.
    UnknownIana,
    /// The IANA name, kept in the error, is mapped to no time zone
    /// identifier.
    IanaIdNotFound(String),
    /// The offset from UTC lies beyond 18 hours or could not be read.
    InvalidOffset,
    /// The time zone never has the given offset at the given instant.
    OffsetMismatch(InvalidUtcOffsets),
    /// An IANA name and a BCP-47 identifier were given together.
    IanaAndBcp47,
    /// The fields that were asked for need a value that was not given.
    MissingValues,
}

/// An `Error` with its texts as sequences of characters.
pub ghost enum ErrorView {
    IcuLocaleParse(ParseError),
    Bcp47(ParseError, Seq<char>),
    TinyStr(TinyStrError, Seq<char>),
    LoadDateTimeFormatter(DateTimeFormatterLoadError),
    CompositeError(BuilderError),
    Pattern(PatternError),
    DateRange(OutOfRange),
    PartialDate,
    PartialTime,
    UnknownIana,
    IanaIdNotFound(Seq<char>),
    InvalidOffset,
    OffsetMismatch(UtcOffsets),
    IanaAndBcp47,
    MissingValues,
}

impl View for Error {
    type V = ErrorView;

    open spec fn view(&self) -> ErrorView {
        match *self {
            Error::IcuLocaleParse(e) => ErrorView::IcuLocaleParse(e),
            Error::Bcp47(e, text) => ErrorView::Bcp47(e, text@),
            Error::TinyStr(e, text) => ErrorView::TinyStr(e, text@),
            Error::LoadDateTimeFormatter(e) => ErrorView::LoadDateTimeFormatter(e),
            Error::CompositeError(e) => ErrorView::CompositeError(e),
            Error::Pattern(e) => ErrorView::Pattern(e),
            Error::DateRange(e) => ErrorView::DateRange(out_of_range(e)),
            Error::PartialDate => ErrorView::PartialDate,
            Error::PartialTime => ErrorView::PartialTime,
            Error::UnknownIana => ErrorView::UnknownIana,
            Error::IanaIdNotFound(name) => ErrorView::IanaIdNotFound(name@),
            Error::InvalidOffset => ErrorView::InvalidOffset,
            Error::OffsetMismatch(offsets) => ErrorView::OffsetMismatch(offsets.0),
            Error::IanaAndBcp47 => ErrorView::IanaAndBcp47,
            Error::MissingValues => ErrorView::MissingValues,
        }
    }
}

/// The offsets that a time zone does observe, kept for the report that a
/// requested offset is none of them.
#[derive(Clone, Copy, Debug, PartialEq, Eq, Structural)]
pub struct InvalidUtcOffsets(pub UtcOffsets);

/// The character of a decimal digit.
pub open spec fn digit(d: int) -> char {
    if d == 0 {
        '0'
    } else if d == 1 {
        '1'
    } else if d == 2 {
        '2'
    } else if d == 3 {
        '3'
    } else if d == 4 {
        '4'
    } else if d == 5 {
        '5'
    } else if d == 6 {
        '6'
    } else if d == 7 {
        '7'
    } else if d == 8 {
        '8'
    } else {
        '9'
    }
}

/// A natural number in decimal digits, without leading zeros.
pub open spec fn decimal(n: nat) -> Seq<char>
    decreases n,
{
    if n < 10 {
        seq![digit(n as int)]
    } else {
        decimal(n / 10).push(digit((n % 10) as int))
    }
}

/// A natural number in at least two decimal digits.
pub open spec fn two_digits(n: nat) -> Seq<char> {
    if n < 10 {
        seq!['0', digit(n as int)]
    } else {
        decimal(n)
    }
}

/// The distance of an offset from UTC, in seconds.
pub open spec fn magnitude(seconds: i32) -> nat {
    if seconds >= 0 {
        seconds as nat
    } else {
        (-seconds) as nat
    }
}

/// How an offset from UTC is written: a sign and the hours in two digits;
/// then, unless the offset is a whole number of hours, a colon and the
/// minutes in two digits; then, unless it is a whole number of minutes, a
/// colon and the seconds in two digits.
pub open spec fn offset_text(seconds: i32) -> Seq<char> {
    let sign = if seconds >= 0 {
        '+'
    } else {
        '-'
    };
    let size = magnitude(seconds);
    let hours = seq![sign] + two_digits(size / 3600);
    let minutes = hours + seq![':'] + two_digits(size % 3600 / 60);
    if size % 60 != 0 {
        minutes + seq![':'] + two_digits(size % 60)
    } else if size % 3600 != 0 {
        minutes
    } else {
        hours
    }
}

/// How the offsets of a zone are written in the report of a mismatch.
pub open spec fn offsets_text(offsets: UtcOffsets) -> Seq<char> {
    "standard="@ + offset_text(offsets.standard) + ", daylight="@ + match offsets.daylight {
        Some(daylight) => offset_text(daylight),
        None => "n/a"@,
    }
}

/// `String::push`: the text grows by one character at its end.
#[verifier::external_body]
fn push_char(text: &mut String, c: char)
    ensures
        final(text)@ == old(text)@.push(c),
{
    text.push(c);
}

fn push_digit(text: &mut String, d: u64)
    requires
        d < 10,
    ensures
        final(text)@ == old(text)@.push(digit(d as int)),
{
    let c = if d == 0 {
        '0'
    } else if d == 1 {
        '1'
    } else if d == 2 {
        '2'
    } else if d == 3 {
        '3'
    } else if d == 4 {
        '4'
    } else if d == 5 {
        '5'
    } else if d == 6 {
        '6'
    } else if d == 7 {
        '7'
    } else if d == 8 {
        '8'
    } else {
        '9'
    };
    push_char(text, c);
}

fn push_decimal(text: &mut String, n: u64)
    ensures
        final(text)@ == old(text)@ + decimal(n as nat),
    decreases n,
{
    if n < 10 {
        push_digit(text, n);
    } else {
        push_decimal(text, n / 10);
        push_digit(text, n % 10);
    }
}

fn push_two_digits(text: &mut String, n: u64)
    ensures
        final(text)@ == old(text)@ + two_digits(n as nat),
{
    if n < 10 {
        push_char(text, '0');
        push_digit(text, n);
    } else {
        push_decimal(text, n);
    }
}

fn push_offset(text: &mut String, seconds: i32)
    ensures
        final(text)@ == old(text)@ + offset_text(seconds),
{
    let wide: i64 = seconds as i64;
    let size: u64 = if wide >= 0 {
        wide as u64
    } else {
        (-wide) as u64
    };
    push_char(text, if seconds >= 0 { '+' } else { '-' });
    push_two_digits(text, size / 3600);
    if size % 3600 != 0 {
        push_char(text, ':');
        push_two_digits(text, size % 3600 / 60);
        if size % 60 != 0 {
            push_char(text, ':');
            push_two_digits(text, size % 60);
        }
    }
}

impl InvalidUtcOffsets {
    /// The offsets as a report shows them, such as
    /// `standard=+01, daylight=+02` or `standard=+05:30, daylight=n/a`.
    pub fn to_string(&self) -> (r: String)
        ensures
            r@ == offsets_text(self.0),
    {
        let mut text = String::new();
        text.append("standard=");
        push_offset(&mut text, self.0.standard);
        text.append(", daylight=");
        match self.0.daylight {
            Some(daylight) => push_offset(&mut text, daylight),
            None => text.append("n/a"),
        }
        text
    }
}

/// What a `RangeError` says, with the field's name as a sequence of
/// characters.
pub ghost struct OutOfRange {
    pub field: Seq<char>,
    pub value: int,
    pub min: int,
    pub max: int,
}

/// The content of a `RangeError`.
pub open spec fn out_of_range(e: RangeError) -> OutOfRange {
    OutOfRange { field: e.field@, value: e.value as int, min: e.min as int, max: e.max as int }
}

} // verus!
