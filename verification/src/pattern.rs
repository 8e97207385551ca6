//! Formatting with a pattern: what it starts from, and the choice of the
//! calendar in which the pattern is formatted.
use vstd::prelude::*;
use crate::format::{
    parse_locale, parsed_locale, Spec, SpecView, SpecifiedView, SpecifiedZonedDateTime,
};
use crate::resolve::resolved;
use crate::{Error, ErrorView};
use icu_calendar::AnyCalendarKind;
use icu_datetime::pattern::DateTimePattern;
use icu_datetime::provider::pattern::PatternError;
use icu_datetime::DateTimeFormatterPreferences;
use icu_locale_core::Locale;
use icu_locale_core::preferences::extensions::unicode::keywords::{
    CalendarAlgorithm, HijriCalendarAlgorithm, HourCycle, NumberingSystem,
};
use icu_locale_core::preferences::LocalePreferences;

verus! {

/// `icu_calendar::AnyCalendarKind`, a plain list of calendars.
#[verifier::external_type_specification]
pub struct ExAnyCalendarKind(AnyCalendarKind);

/// `icu_locale_core`'s `CalendarAlgorithm`: the calendar that a locale asks
/// for.
#[verifier::external_type_specification]
pub struct ExCalendarAlgorithm(CalendarAlgorithm);

/// `icu_locale_core`'s `HijriCalendarAlgorithm`, a plain list.
#[verifier::external_type_specification]
pub struct ExHijriCalendarAlgorithm(HijriCalendarAlgorithm);

/// `icu_locale_core`'s `HourCycle`, carried through unread.
#[verifier::external_type_specification]
#[verifier::external_body]
pub struct ExHourCycle(HourCycle);

/// `icu_locale_core`'s `NumberingSystem`, carried through unread.
#[verifier::external_type_specification]
#[verifier::external_body]
pub struct ExNumberingSystem(NumberingSystem);

/// `icu_locale_core`'s `LocalePreferences`, carried through unread.
#[verifier::external_type_specification]
#[verifier::external_body]
pub struct ExLocalePreferences(LocalePreferences);

/// `icu_datetime::DateTimeFormatterPreferences`: what a locale prefers, in
/// four public fields, one of them the calendar.
#[verifier::external_type_specification]
pub struct ExDateTimeFormatterPreferences(DateTimeFormatterPreferences);

/// The calendars in which a pattern can be formatted.
#[derive(Clone, Copy, Debug, PartialEq, Eq, Structural)]
pub enum CalendarKind {
    Buddhist,
    Chinese,
    Coptic,
    Dangi,
    Ethiopian,
    EthiopianAmeteAlem,
    Gregorian,
    Hebrew,
    Indian,
    HijriTabularTypeIIFriday,
    HijriSimulatedMecca,
    HijriTabularTypeIIThursday,
    HijriUmmAlQura,
    Japanese,
    JapaneseExtended,
    Persian,
    Roc,
}

/// The calendar of this library that stands for a calendar of the outside
/// one. The ISO calendar has none.
pub open spec fn supported(kind: AnyCalendarKind) -> Option<CalendarKind> {
    match kind {
        AnyCalendarKind::Buddhist => Some(CalendarKind::Buddhist),
        AnyCalendarKind::Chinese => Some(CalendarKind::Chinese),
        AnyCalendarKind::Coptic => Some(CalendarKind::Coptic),
        AnyCalendarKind::Dangi => Some(CalendarKind::Dangi),
        AnyCalendarKind::Ethiopian => Some(CalendarKind::Ethiopian),
        AnyCalendarKind::EthiopianAmeteAlem => Some(CalendarKind::EthiopianAmeteAlem),
        AnyCalendarKind::Gregorian => Some(CalendarKind::Gregorian),
        AnyCalendarKind::Hebrew => Some(CalendarKind::Hebrew),
        AnyCalendarKind::Indian => Some(CalendarKind::Indian),
        AnyCalendarKind::HijriTabularTypeIIFriday => Some(CalendarKind::HijriTabularTypeIIFriday),
        AnyCalendarKind::HijriSimulatedMecca => Some(CalendarKind::HijriSimulatedMecca),
        AnyCalendarKind::HijriTabularTypeIIThursday => Some(
            CalendarKind::HijriTabularTypeIIThursday,
        ),
        AnyCalendarKind::HijriUmmAlQura => Some(CalendarKind::HijriUmmAlQura),
        AnyCalendarKind::Japanese => Some(CalendarKind::Japanese),
        AnyCalendarKind::JapaneseExtended => Some(CalendarKind::JapaneseExtended),
        AnyCalendarKind::Persian => Some(CalendarKind::Persian),
        AnyCalendarKind::Roc => Some(CalendarKind::Roc),
        AnyCalendarKind::Iso => None,
        _ => None,
    }
}

impl CalendarKind {
    /// The calendar that stands for `kind`, if there is one.
    pub fn try_new(kind: AnyCalendarKind) -> (r: Option<CalendarKind>)
        ensures
            r == supported(kind),
    {
        match kind {
            AnyCalendarKind::Buddhist => Some(CalendarKind::Buddhist),
            AnyCalendarKind::Chinese => Some(CalendarKind::Chinese),
            AnyCalendarKind::Coptic => Some(CalendarKind::Coptic),
            AnyCalendarKind::Dangi => Some(CalendarKind::Dangi),
            AnyCalendarKind::Ethiopian => Some(CalendarKind::Ethiopian),
            AnyCalendarKind::EthiopianAmeteAlem => Some(CalendarKind::EthiopianAmeteAlem),
            AnyCalendarKind::Gregorian => Some(CalendarKind::Gregorian),
            AnyCalendarKind::Hebrew => Some(CalendarKind::Hebrew),
            AnyCalendarKind::Indian => Some(CalendarKind::Indian),
            AnyCalendarKind::HijriTabularTypeIIFriday => Some(
                CalendarKind::HijriTabularTypeIIFriday,
            ),
            AnyCalendarKind::HijriSimulatedMecca => Some(CalendarKind::HijriSimulatedMecca),
            AnyCalendarKind::HijriTabularTypeIIThursday => Some(
                CalendarKind::HijriTabularTypeIIThursday,
            ),
            AnyCalendarKind::HijriUmmAlQura => Some(CalendarKind::HijriUmmAlQura),
            AnyCalendarKind::Japanese => Some(CalendarKind::Japanese),
            AnyCalendarKind::JapaneseExtended => Some(CalendarKind::JapaneseExtended),
            AnyCalendarKind::Persian => Some(CalendarKind::Persian),
            AnyCalendarKind::Roc => Some(CalendarKind::Roc),
            AnyCalendarKind::Iso => None,
            _ => None,
        }
    }
}

/// The calendar that `AnyCalendarKind::new` selects for a set of
/// preferences.
pub uninterp spec fn selected_calendar(prefs: DateTimeFormatterPreferences) -> AnyCalendarKind;

/// Asks `icu_calendar`'s `AnyCalendarKind::new` which calendar goes with the
/// preferences.
#[verifier::external_body]
fn any_calendar_kind(prefs: &DateTimeFormatterPreferences) -> (kind: AnyCalendarKind)
    ensures
        kind == selected_calendar(*prefs),
{
    AnyCalendarKind::new(prefs.into())
}

/// `after` is `before` with the locale's own choice of calendar removed
/// where `cleared` holds, and `before` itself where it does not.
pub open spec fn keeps_all_but_calendar(
    before: DateTimeFormatterPreferences,
    after: DateTimeFormatterPreferences,
    cleared: bool,
) -> bool {
    &&& after.locale_preferences == before.locale_preferences
    &&& after.numbering_system == before.numbering_system
    &&& after.hour_cycle == before.hour_cycle
    &&& after.calendar_algorithm == if cleared {
        None
    } else {
        before.calendar_algorithm
    }
}

/// The calendar that is settled on, given the calendar selected for the
/// preferences as they stand and the one selected once the locale's own
/// choice is set aside: the first if it is supported, else the second if
/// that is, else the Gregorian calendar.
pub open spec fn settled_kind(preferred: AnyCalendarKind, implied: AnyCalendarKind) -> CalendarKind {
    match supported(preferred) {
        Some(kind) => kind,
        None => match supported(implied) {
            Some(kind) => kind,
            None => CalendarKind::Gregorian,
        },
    }
}

/// Settles the calendar in which to format for `prefs`. Where the calendar
/// that the preferences select is not supported, the locale's own choice of
/// calendar is removed from them and the selection is made again; where
/// that fails too, the calendar is the Gregorian one.
pub fn resolve_calendar_kind(prefs: &mut DateTimeFormatterPreferences) -> (r: CalendarKind)
    ensures
        keeps_all_but_calendar(
            *old(prefs),
            *final(prefs),
            supported(selected_calendar(*old(prefs))) is None,
        ),
        r == settled_kind(selected_calendar(*old(prefs)), selected_calendar(*final(prefs))),
{
    if let Some(kind) = CalendarKind::try_new(any_calendar_kind(prefs)) {
        return kind;
    }
    prefs.calendar_algorithm = None;
    if let Some(kind) = CalendarKind::try_new(any_calendar_kind(prefs)) {
        return kind;
    }
    CalendarKind::Gregorian
}

/// Every calendar of the outside library but the ISO calendar is
/// supported.
pub proof fn lemma_only_iso_is_unsupported(kind: AnyCalendarKind)
    ensures
        supported(kind) is None <==> kind is Iso,
{
}

/// Whatever the two selections are, a calendar is settled on: the
/// preferred one where it is supported, else the implied one where that is
/// supported, and the Gregorian calendar where neither is.
pub proof fn lemma_settled_kind_is_total(preferred: AnyCalendarKind, implied: AnyCalendarKind)
    ensures
        supported(preferred) is Some ==> Some(settled_kind(preferred, implied)) == supported(
            preferred,
        ),
        supported(preferred) is None && supported(implied) is Some ==> Some(
            settled_kind(preferred, implied),
        ) == supported(implied),
        supported(preferred) is None && supported(implied) is None ==> settled_kind(
            preferred,
            implied,
        ) == CalendarKind::Gregorian,
        preferred is Iso && implied is Iso ==> settled_kind(preferred, implied)
            == CalendarKind::Gregorian,
{
}

/// `icu_datetime`'s `DateTimePattern`, carried through unread.
#[verifier::external_type_specification]
#[verifier::external_body]
pub struct ExDateTimePattern(DateTimePattern);

/// What a locale prefers, as `icu_datetime` reads it off the locale.
pub uninterp spec fn preferences_of(locale: Locale) -> DateTimeFormatterPreferences;

/// Reads the preferences off a locale with `icu_datetime`'s conversion from
/// `Locale` into `DateTimeFormatterPreferences`.
#[verifier::external_body]
fn preferences(locale: Locale) -> (r: DateTimeFormatterPreferences)
    ensures
        r == preferences_of(locale),
{
    locale.into()
}

/// What `DateTimePattern::try_from_pattern_str` reads a pattern as.
pub uninterp spec fn parsed_pattern(text: Seq<char>) -> Result<DateTimePattern, PatternError>;

/// Reads a pattern with `icu_datetime`'s
/// `DateTimePattern::try_from_pattern_str`.
#[verifier::external_body]
fn parse_pattern(text: &str) -> (r: Result<DateTimePattern, PatternError>)
    ensures
        r == parsed_pattern(text@),
{
    DateTimePattern::try_from_pattern_str(text)
}

/// What formatting with a pattern starts from: the value, the pattern, the
/// preferences of the locale, and the calendar that was settled on for
/// them.
#[derive(Debug)]
pub struct Prepared {
    pub value: SpecifiedZonedDateTime,
    pub prefs: DateTimeFormatterPreferences,
    pub pattern: DateTimePattern,
    pub kind: CalendarKind,
}

/// The first failure among the steps that come before the calendar is
/// settled: the description is resolved, then the locale is read, then the
/// pattern.
pub open spec fn preparation_fault(spec: SpecView, locale: Seq<char>, pattern: Seq<char>) -> Option<
    ErrorView,
> {
    match resolved(spec) {
        Err(e) => Some(e),
        Ok(_) => match parsed_locale(locale) {
            Err(e) => Some(ErrorView::IcuLocaleParse(e)),
            Ok(_) => match parsed_pattern(pattern) {
                Err(e) => Some(ErrorView::Pattern(e)),
                Ok(_) => None,
            },
        },
    }
}

/// Resolves the description, reads the locale and the pattern, and settles
/// the calendar. What comes back is all that the formatting itself needs;
/// the preferences in it have lost the locale's own choice of calendar
/// where that choice is not supported.
pub fn prepare(pattern_str: &str, locale: &str, spec: Spec) -> (r: Result<Prepared, Error>)
    ensures
        match r {
            Ok(made) => {
                let before = preferences_of(parsed_locale(locale@)->Ok_0);
                &&& preparation_fault(spec@, locale@, pattern_str@) is None
                &&& resolved(spec@) == Ok::<SpecifiedView, ErrorView>(made.value@)
                &&& made.value.wf()
                &&& parsed_pattern(pattern_str@) == Ok::<DateTimePattern, PatternError>(
                    made.pattern,
                )
                &&& keeps_all_but_calendar(
                    before,
                    made.prefs,
                    supported(selected_calendar(before)) is None,
                )
                &&& made.kind == settled_kind(
                    selected_calendar(before),
                    selected_calendar(made.prefs),
                )
            },
            Err(e) => preparation_fault(spec@, locale@, pattern_str@) == Some(e@),
        },
{
    let value = match SpecifiedZonedDateTime::try_from(spec) {
        Ok(value) => value,
        Err(e) => { return Err(e); },
    };
    let mut prefs = match parse_locale(locale) {
        Ok(locale) => preferences(locale),
        Err(e) => { return Err(Error::IcuLocaleParse(e)); },
    };
    let pattern = match parse_pattern(pattern_str) {
        Ok(pattern) => pattern,
        Err(e) => { return Err(Error::Pattern(e)); },
    };
    let kind = resolve_calendar_kind(&mut prefs);
    Ok(Prepared { value, prefs, pattern, kind })
}

} // verus!
