use icu_calendar::AnyCalendarKind;
use icu_datetime::DateTimeFormatterPreferences;
use icu_locale_core::Locale;
use temporal_spec::format::Spec;
use temporal_spec::pattern::{prepare, resolve_calendar_kind, CalendarKind};
use temporal_spec::Error;

fn prefs(locale: &str) -> DateTimeFormatterPreferences {
    Locale::try_from_str(locale).unwrap().into()
}

#[test]
fn every_calendar_but_iso_is_supported() {
    let pairs = [
        (AnyCalendarKind::Buddhist, CalendarKind::Buddhist),
        (AnyCalendarKind::Chinese, CalendarKind::Chinese),
        (AnyCalendarKind::Coptic, CalendarKind::Coptic),
        (AnyCalendarKind::Dangi, CalendarKind::Dangi),
        (AnyCalendarKind::Ethiopian, CalendarKind::Ethiopian),
        (AnyCalendarKind::EthiopianAmeteAlem, CalendarKind::EthiopianAmeteAlem),
        (AnyCalendarKind::Gregorian, CalendarKind::Gregorian),
        (AnyCalendarKind::Hebrew, CalendarKind::Hebrew),
        (AnyCalendarKind::Indian, CalendarKind::Indian),
        (AnyCalendarKind::HijriTabularTypeIIFriday, CalendarKind::HijriTabularTypeIIFriday),
        (AnyCalendarKind::HijriSimulatedMecca, CalendarKind::HijriSimulatedMecca),
        (AnyCalendarKind::HijriTabularTypeIIThursday, CalendarKind::HijriTabularTypeIIThursday),
        (AnyCalendarKind::HijriUmmAlQura, CalendarKind::HijriUmmAlQura),
        (AnyCalendarKind::Japanese, CalendarKind::Japanese),
        (AnyCalendarKind::JapaneseExtended, CalendarKind::JapaneseExtended),
        (AnyCalendarKind::Persian, CalendarKind::Persian),
        (AnyCalendarKind::Roc, CalendarKind::Roc),
    ];
    for (outside, own) in pairs {
        assert_eq!(CalendarKind::try_new(outside), Some(own));
    }
    assert_eq!(CalendarKind::try_new(AnyCalendarKind::Iso), None);
}

#[test]
fn explicit_calendar_is_taken() {
    let mut p = prefs("en-u-ca-hebrew");
    let before = p;
    assert_eq!(resolve_calendar_kind(&mut p), CalendarKind::Hebrew);
    assert_eq!(p, before);
}

#[test]
fn plain_locale_is_gregorian() {
    let mut p = prefs("en");
    let before = p;
    assert_eq!(resolve_calendar_kind(&mut p), CalendarKind::Gregorian);
    assert_eq!(p, before);
}

#[test]
fn iso_falls_back_to_the_default_of_the_region() {
    let mut p = prefs("th-TH-u-ca-iso8601");
    assert!(p.calendar_algorithm.is_some());
    assert_eq!(resolve_calendar_kind(&mut p), CalendarKind::Buddhist);
    assert!(p.calendar_algorithm.is_none());
    assert_eq!(p.locale_preferences, prefs("th-TH").locale_preferences);
}

#[test]
fn iso_without_a_regional_default_is_gregorian() {
    let mut p = prefs("en-u-ca-iso8601");
    assert_eq!(resolve_calendar_kind(&mut p), CalendarKind::Gregorian);
    assert!(p.calendar_algorithm.is_none());
}

#[test]
fn hijri_rgsa_is_kept() {
    let mut p = prefs("ar-u-ca-islamic-rgsa");
    assert_eq!(resolve_calendar_kind(&mut p), CalendarKind::HijriSimulatedMecca);
    assert!(p.calendar_algorithm.is_some());
}

#[test]
fn hijri_follows_the_region() {
    let mut p = prefs("ar-SA-u-ca-islamic");
    assert_eq!(resolve_calendar_kind(&mut p), CalendarKind::HijriUmmAlQura);
    let mut p = prefs("ar-EG-u-ca-islamic");
    assert_eq!(resolve_calendar_kind(&mut p), CalendarKind::HijriTabularTypeIIFriday);
}

fn day(year: Option<i32>) -> Spec {
    Spec {
        year,
        month: Some(7),
        day: Some(3),
        hour: None,
        minute: None,
        second: None,
        nanosecond: None,
        zone: None,
    }
}

#[test]
fn a_pattern_is_prepared() {
    let made = prepare("yyyy-MM-dd", "th-TH-u-ca-iso8601-hc-h23", day(Some(2024))).unwrap();
    assert_eq!(made.kind, CalendarKind::Buddhist);
    assert!(made.prefs.calendar_algorithm.is_none());
    assert!(made.prefs.hour_cycle.is_some());
    assert_eq!(made.prefs.locale_preferences, prefs("th-TH").locale_preferences);
    assert!(made.value.has_date());
    assert_eq!(made.value.value().date.year, 2024);
    assert_eq!(made.pattern, "yyyy-MM-dd".parse().unwrap());

    let made = prepare("yyyy", "ja-u-ca-japanese", day(Some(2024))).unwrap();
    assert_eq!(made.kind, CalendarKind::Japanese);
    assert_eq!(made.prefs, prefs("ja-u-ca-japanese"));
}

#[test]
fn the_first_failure_of_a_preparation_is_reported() {
    assert!(matches!(prepare("'", "not a locale", day(None)), Err(Error::PartialDate)));
    assert!(matches!(prepare("'", "not a locale", day(Some(1))), Err(Error::IcuLocaleParse(_))));
    assert!(matches!(prepare("'", "en", day(Some(1))), Err(Error::Pattern(_))));
    assert!(prepare("''", "en", day(Some(1))).is_ok());
}
