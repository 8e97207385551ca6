//! Time zone identities, offsets from UTC, and the choice between a zone's
//! standard and daylight variant.
use vstd::prelude::*;
use icu_locale_core::subtags::Subtag;
use icu_locale_core::ParseError;
use icu_time::zone::iana::IanaParserExtendedBorrowed;
use icu_time::zone::{UtcOffset, VariantOffsetsCalculator, ZoneNameTimestamp};
use icu_time::{DateTime, TimeZone};
use vstd::string::StringExecFns;
use crate::date::Date;
use crate::time::Time;
use crate::{Error, ErrorView, InvalidUtcOffsets};

verus! {

/// Whether a zone is on standard or on daylight (summer) time.
#[derive(Clone, Copy, Debug, PartialEq, Eq, Structural)]
pub enum ZoneVariant {
    Standard,
    Daylight,
}

/// The offsets from UTC, in seconds, that a zone observes around an instant.
#[derive(Clone, Copy, Debug, PartialEq, Eq, Structural)]
pub struct UtcOffsets {
    pub standard: i32,
    pub daylight: Option<i32>,
}

/// A time zone as it is handed to a formatter: an identifier, an offset
/// from UTC in seconds where one is known, and the variant in force.
#[derive(Debug)]
pub struct TimeZoneInfo {
    pub id: String,
    pub offset: Option<i32>,
    pub variant: ZoneVariant,
}

/// A `TimeZoneInfo` with its identifier as a sequence of characters.
pub ghost struct ZoneView {
    pub id: Seq<char>,
    pub offset: Option<i32>,
    pub variant: ZoneVariant,
}

impl View for TimeZoneInfo {
    type V = ZoneView;

    open spec fn view(&self) -> ZoneView {
        ZoneView { id: self.id@, offset: self.offset, variant: self.variant }
    }
}

/// The zone of a value for which none was given: UTC, on standard time.
pub open spec fn utc_zone() -> ZoneView {
    ZoneView { id: "utc"@, offset: Some(0i32), variant: ZoneVariant::Standard }
}

/// The identifier of the zone that stands for "no known zone".
pub open spec fn unknown_id() -> Seq<char> {
    "unk"@
}

impl ZoneView {
    /// The identifier is a subtag in its kept form, and the offset is
    /// within 18 hours of UTC.
    pub open spec fn wf(self) -> bool {
        &&& is_zone_id(self.id)
        &&& self.offset matches Some(seconds) ==> is_utc_offset(seconds as int)
    }
}

impl TimeZoneInfo {
    /// The identifier is a subtag in its kept form, and the offset is
    /// within 18 hours of UTC.
    pub open spec fn wf(&self) -> bool {
        self@.wf()
    }

    /// UTC on standard time.
    pub fn utc() -> (r: TimeZoneInfo)
        ensures
            r@ == utc_zone(),
            r.wf(),
    {
        proof {
            reveal_strlit("utc");
        }
        TimeZoneInfo {
            id: String::from_str("utc"),
            offset: Some(0),
            variant: ZoneVariant::Standard,
        }
    }
}

/// An ASCII letter or digit.
pub open spec fn is_ascii_alphanumeric(c: char) -> bool {
    ('a' <= c && c <= 'z') || ('A' <= c && c <= 'Z') || ('0' <= c && c <= '9')
}

/// The lower-case form of an ASCII letter; any other character unchanged.
pub open spec fn ascii_lowercase(c: char) -> char {
    if 'A' <= c && c <= 'Z' {
        ((c as u8 + 32) as u8) as char
    } else {
        c
    }
}

/// The text can be read as a BCP-47 subtag: two to eight ASCII letters and
/// digits.
pub open spec fn is_subtag(s: Seq<char>) -> bool {
    2 <= s.len() <= 8 && forall|i: int| 0 <= i < s.len() ==> is_ascii_alphanumeric(#[trigger] s[i])
}

/// The text is a subtag in the form in which zone identifiers are kept:
/// without upper-case letters.
pub open spec fn is_zone_id(s: Seq<char>) -> bool {
    is_subtag(s) && forall|i: int| 0 <= i < s.len() ==> !('A' <= #[trigger] s[i] && s[i] <= 'Z')
}

/// The subtag that a text is read as.
pub open spec fn subtag_of(s: Seq<char>) -> Seq<char> {
    Seq::new(s.len(), |i: int| ascii_lowercase(s[i]))
}

/// The identifier of the unknown zone is in the kept form.
pub proof fn lemma_unknown_id_is_zone_id()
    ensures
        is_zone_id(unknown_id()),
{
    reveal_strlit("unk");
}

/// A text that is in the kept form already is read as itself.
pub proof fn lemma_zone_id_reads_as_itself(s: Seq<char>)
    requires
        is_zone_id(s),
    ensures
        is_subtag(s),
        subtag_of(s) == s,
{
    assert(subtag_of(s) =~= s);
}

/// What a subtag is read as is in the kept form.
pub proof fn lemma_subtag_is_zone_id(s: Seq<char>)
    requires
        is_subtag(s),
    ensures
        is_zone_id(subtag_of(s)),
{
    assert forall|i: int| 0 <= i < s.len() implies is_ascii_alphanumeric(#[trigger] subtag_of(s)[i])
        && !('A' <= subtag_of(s)[i] && subtag_of(s)[i] <= 'Z') by {
        assert(is_ascii_alphanumeric(s[i]));
    }
}

/// Reads a BCP-47 subtag with `icu_locale_core::subtags::Subtag::try_from_str`
/// and hands back its text. The contract restates what that parser does: it
/// accepts two to eight ASCII letters and digits and lowers the letters; on
/// anything else it fails with `ParseError::InvalidSubtag`.
#[verifier::external_body]
pub(crate) fn parse_subtag(s: &str) -> (r: Result<String, ParseError>)
    ensures
        match r {
            Ok(id) => is_subtag(s@) && id@ == subtag_of(s@),
            Err(e) => !is_subtag(s@) && e == ParseError::InvalidSubtag,
        },
{
    match icu_locale_core::subtags::Subtag::try_from_str(s) {
        Ok(subtag) => Ok(subtag.as_str().to_string()),
        Err(e) => Err(e),
    }
}

/// The zone identifier that the time zone database gives for an IANA name:
/// what `IanaParserExtendedBorrowed::parse` finds, `unk` where it finds
/// nothing.
pub uninterp spec fn iana_zone(name: Seq<char>) -> Seq<char>;

/// Looks an IANA name up with `icu_time`'s `IanaParserExtendedBorrowed::parse`
/// and hands back the text of the zone identifier found. The identifier is a
/// subtag, so its text is in the kept form.
#[verifier::external_body]
pub(crate) fn parse_iana(name: &str) -> (r: String)
    ensures
        r@ == iana_zone(name@),
        is_zone_id(r@),
{
    IanaParserExtendedBorrowed::new().parse(name).time_zone.as_str().to_string()
}

/// The bounds of an offset from UTC: 18 hours either way, in seconds.
pub open spec fn is_utc_offset(seconds: int) -> bool {
    -64800 <= seconds <= 64800
}

/// Checks a number of seconds with `icu_time`'s `UtcOffset::try_from_seconds`,
/// which accepts exactly those of at most 18 hours either way, and hands the
/// accepted number back.
#[verifier::external_body]
pub(crate) fn offset_from_seconds(seconds: i32) -> (r: Option<i32>)
    ensures
        r == (if is_utc_offset(seconds as int) {
            Some(seconds)
        } else {
            None
        }),
{
    UtcOffset::try_from_seconds(seconds).ok().map(UtcOffset::to_seconds)
}

/// The offset in seconds that a text such as `Z`, `+05`, `+0530` or
/// `-05:30` is read as by `UtcOffset::try_from_str`, if it is read at all.
pub uninterp spec fn parsed_offset(text: Seq<char>) -> Option<i32>;

/// Reads an offset from UTC with `icu_time`'s `UtcOffset::try_from_str` and
/// hands back its seconds. The parser ends in the same range check as
/// `UtcOffset::try_from_seconds`, so what it accepts is within 18 hours.
#[verifier::external_body]
pub(crate) fn offset_from_str(text: &str) -> (r: Option<i32>)
    ensures
        r == parsed_offset(text@),
        r matches Some(seconds) ==> is_utc_offset(seconds as int),
{
    UtcOffset::try_from_str(text).ok().map(UtcOffset::to_seconds)
}

/// The number that two characters spell in decimal, if both are digits.
pub open spec fn two_digit_number(tens: char, ones: char) -> Option<int> {
    if '0' <= tens && tens <= '9' && '0' <= ones && ones <= '9' {
        Some((tens as int - '0' as int) * 10 + (ones as int - '0' as int))
    } else {
        None
    }
}

/// The offset, in seconds, of a zone whose identifier itself names a fixed
/// offset from UTC: `utc` and `gmt` are at UTC; `utce01` to `utce14` are
/// one to fourteen hours east of it; `utcw01` to `utcw12` are one to twelve
/// hours west of it. No other identifier names an offset.
pub open spec fn fixed_offset(id: Seq<char>) -> Option<i32> {
    if id.len() == 3 && ((id[0] == 'u' && id[1] == 't' && id[2] == 'c') || (id[0] == 'g' && id[1]
        == 'm' && id[2] == 't')) {
        Some(0i32)
    } else if id.len() == 6 && id[0] == 'u' && id[1] == 't' && id[2] == 'c' {
        match two_digit_number(id[4], id[5]) {
            Some(hours) => if id[3] == 'e' && 1 <= hours <= 14 {
                Some((hours * 3600) as i32)
            } else if id[3] == 'w' && 1 <= hours <= 12 {
                Some((-hours * 3600) as i32)
            } else {
                None
            },
            None => None,
        }
    } else {
        None
    }
}

/// The identifier and the offset of the zone that comes of joining an
/// identifier with an offset. Every zone but those with a fixed offset is
/// joined as it is. A zone with a fixed offset gets that offset where none
/// is given, and becomes the unknown zone unless it is `utc` or `gmt`; where
/// an offset is given that is not its own, it becomes the unknown zone
/// without an offset.
pub open spec fn joined(id: Seq<char>, offset: Option<i32>) -> (Seq<char>, Option<i32>) {
    match (fixed_offset(id), offset) {
        (Some(own), None) => (
            if id.len() > 3 {
                unknown_id()
            } else {
                id
            },
            Some(own),
        ),
        (Some(own), Some(given)) => if own != given {
            (unknown_id(), None)
        } else {
            (id, offset)
        },
        (None, _) => (id, offset),
    }
}

/// What joining changes and what it keeps: the identifier stays or becomes
/// that of the unknown zone and is in the kept form either way; an offset
/// that was given stays or is dropped; an offset that takes the place of a
/// missing one is within 18 hours of UTC.
pub proof fn lemma_joined(id: Seq<char>, offset: Option<i32>)
    requires
        is_zone_id(id),
    ensures
        is_zone_id(joined(id, offset).0),
        joined(id, offset).0 == id || joined(id, offset).0 == unknown_id(),
        joined(id, offset).1 matches Some(seconds) ==> offset == Some(seconds) || (offset is None
            && is_utc_offset(seconds as int)),
        fixed_offset(id) is None || fixed_offset(id) == offset ==> joined(id, offset) == (
            id,
            offset,
        ),
{
    lemma_unknown_id_is_zone_id();
}

/// Joins a zone identifier and an offset with `icu_time`'s
/// `TimeZone::with_offset` and hands back the identifier and the offset of
/// the zone value made. The contract restates that function: it knows 29
/// identifiers that name a fixed offset, fills a missing offset in for
/// them, makes those of them that are longer than three letters unknown
/// when it does so, makes the zone unknown and without offset where the
/// offset given is not the zone's own, and leaves every other pair as it
/// is.
#[verifier::external_body]
pub(crate) fn with_offset(id: &str, offset: Option<i32>) -> (r: (String, Option<i32>))
    requires
        is_zone_id(id@),
    ensures
        (r.0@, r.1) == joined(id@, offset),
{
    let zone = TimeZone(Subtag::try_from_str(id).unwrap());
    let info = zone.with_offset(offset.map(UtcOffset::from_seconds_unchecked));
    (info.id().as_str().to_string(), info.offset().map(UtcOffset::to_seconds))
}

/// The standard and daylight offsets that the time zone database holds for
/// a zone at a civil date and time, the date and time read as UTC; nothing
/// where it knows no offsets for the zone.
pub uninterp spec fn zone_offsets(id: Seq<char>, date: Date, time: Time) -> Option<UtcOffsets>;

/// Looks up the offsets of a zone at a date and time with `icu_time`'s
/// `VariantOffsetsCalculator`, the instant made by
/// `ZoneNameTimestamp::from_date_time_iso`, and hands them back in seconds.
/// That function counts the milliseconds from 1970 to the date in 64 bits,
/// which the years of a well-formed date cannot overflow.
#[allow(deprecated)]
#[verifier::external_body]
pub(crate) fn offsets_at(id: &str, date: Date, time: Time) -> (r: Option<UtcOffsets>)
    requires
        is_zone_id(id@),
        date.wf(),
        time.wf(),
    ensures
        r == zone_offsets(id@, date, time),
{
    let zone = TimeZone(Subtag::try_from_str(id).unwrap());
    let date = icu_calendar::Date::try_new_iso(date.year, date.month, date.day).unwrap();
    let time = icu_time::Time::try_new(time.hour, time.minute, time.second, time.nanosecond).unwrap();
    let at = ZoneNameTimestamp::from_date_time_iso(DateTime { date, time });
    let found = VariantOffsetsCalculator::new()
        .compute_offsets_from_time_zone_and_name_timestamp(zone, at)?;
    Some(UtcOffsets {
        standard: found.standard.to_seconds(),
        daylight: found.daylight.map(UtcOffset::to_seconds),
    })
}

/// The variant that an offset stands for, given the offsets that the zone
/// observes: standard where it is the standard offset, or where the zone's
/// offsets are not known; daylight where it is the daylight offset; and a
/// failure that carries the zone's offsets where it is neither.
pub open spec fn variant_of(offset: i32, offsets: Option<UtcOffsets>) -> Result<
    ZoneVariant,
    UtcOffsets,
> {
    match offsets {
        None => Ok(ZoneVariant::Standard),
        Some(known) => if known.standard == offset {
            Ok(ZoneVariant::Standard)
        } else if known.daylight == Some(offset) {
            Ok(ZoneVariant::Daylight)
        } else {
            Err(known)
        },
    }
}

/// What `variant_of` says of an offset against known offsets: standard
/// exactly for the standard offset, daylight exactly for a daylight offset
/// that differs from it, and a failure that names the known offsets for
/// every other.
pub proof fn lemma_variant_of(offset: i32, known: UtcOffsets)
    ensures
        variant_of(offset, Some(known)) == Ok::<ZoneVariant, UtcOffsets>(ZoneVariant::Standard)
            <==> offset == known.standard,
        variant_of(offset, Some(known)) == Ok::<ZoneVariant, UtcOffsets>(ZoneVariant::Daylight)
            <==> offset != known.standard && known.daylight == Some(offset),
        variant_of(offset, Some(known)) is Err <==> offset != known.standard && known.daylight
            != Some(offset),
        variant_of(offset, Some(known)) is Err ==> variant_of(offset, Some(known))->Err_0
            == known,
{
}

/// Decides whether `offset` is the standard or the daylight offset among
/// `offsets`, and fails with `OffsetMismatch` where it is neither.
pub fn disambiguate(offset: i32, offsets: Option<UtcOffsets>) -> (r: Result<ZoneVariant, Error>)
    ensures
        match r {
            Ok(variant) => variant_of(offset, offsets) == Ok::<ZoneVariant, UtcOffsets>(variant),
            Err(e) => variant_of(offset, offsets) is Err && e@ == ErrorView::OffsetMismatch(
                variant_of(offset, offsets)->Err_0,
            ),
        },
{
    match offsets {
        None => Ok(ZoneVariant::Standard),
        Some(known) => {
            if known.standard == offset {
                Ok(ZoneVariant::Standard)
            } else {
                match known.daylight {
                    Some(daylight) if daylight == offset => Ok(ZoneVariant::Daylight),
                    _ => Err(Error::OffsetMismatch(InvalidUtcOffsets(known))),
                }
            }
        },
    }
}

} // verus!
