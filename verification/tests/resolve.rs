use temporal_spec::date::{Date, MAX_YEAR, MIN_YEAR};
use temporal_spec::format::{Spec, SpecifiedZonedDateTime, TimezoneSpec, UtcOffsetSpec};
use temporal_spec::time::Time;
use temporal_spec::zone::ZoneVariant;
use temporal_spec::Error;

fn empty() -> Spec {
    Spec {
        year: None,
        month: None,
        day: None,
        hour: None,
        minute: None,
        second: None,
        nanosecond: None,
        zone: None,
    }
}

fn zone(offset: Option<UtcOffsetSpec>, iana: Option<&str>, bcp47: Option<&str>) -> Option<TimezoneSpec> {
    Some(TimezoneSpec {
        offset,
        iana: iana.map(|s| s.to_string()),
        bcp47: bcp47.map(|s| s.to_string()),
    })
}

fn chars(text: &str) -> Option<UtcOffsetSpec> {
    Some(UtcOffsetSpec::Chars(text.to_string()))
}

fn seconds(n: i32) -> Option<UtcOffsetSpec> {
    Some(UtcOffsetSpec::OffsetSeconds(n))
}

fn resolve(spec: Spec) -> Result<SpecifiedZonedDateTime, Error> {
    SpecifiedZonedDateTime::try_from(spec)
}

#[test]
fn chicago_in_summer_is_daylight() {
    let spec = Spec {
        year: Some(2024),
        month: Some(7),
        day: Some(3),
        hour: Some(6),
        minute: Some(12),
        second: Some(4),
        nanosecond: None,
        zone: zone(chars("-05"), None, Some("uschi")),
    };
    let v = resolve(spec).unwrap();
    assert!(v.has_date());
    assert!(v.has_time());
    assert!(v.has_zone());
    assert_eq!(v.value.zone.id, "uschi");
    assert_eq!(v.value.zone.offset, Some(-18000));
    assert_eq!(v.value.zone.variant, ZoneVariant::Daylight);
    assert_eq!(v.value.date, Date { year: 2024, month: 7, day: 3 });
    assert_eq!(v.value.time, Time { hour: 6, minute: 12, second: 4, nanosecond: 0 });
}

#[test]
fn chicago_in_winter_is_standard() {
    let spec = Spec {
        year: Some(2024),
        month: Some(1),
        day: Some(3),
        hour: Some(6),
        zone: zone(seconds(-21600), Some("America/Chicago"), None),
        ..empty()
    };
    let v = resolve(spec).unwrap();
    assert_eq!(v.value.zone.id, "uschi");
    assert_eq!(v.value.zone.offset, Some(-21600));
    assert_eq!(v.value.zone.variant, ZoneVariant::Standard);
}

#[test]
fn the_offset_decides_the_variant_in_any_season() {
    let spec = Spec {
        year: Some(2024),
        month: Some(1),
        day: Some(3),
        zone: zone(chars("-05"), None, Some("uschi")),
        ..empty()
    };
    assert_eq!(resolve(spec).unwrap().value.zone.variant, ZoneVariant::Daylight);
}

#[test]
fn chicago_never_has_minus_seven() {
    let spec = Spec {
        year: Some(2024),
        month: Some(1),
        day: Some(3),
        zone: zone(chars("-07"), None, Some("uschi")),
        ..empty()
    };
    match resolve(spec) {
        Err(Error::OffsetMismatch(o)) => {
            assert_eq!(o.0.standard, -21600);
            assert_eq!(o.0.daylight, Some(-18000));
            assert_eq!(o.to_string(), "standard=-06, daylight=-05");
        }
        other => panic!("{other:?}"),
    }
}

#[test]
fn berlin_offsets() {
    let make = |offset: &str| Spec {
        year: Some(2024),
        month: Some(7),
        day: Some(3),
        zone: zone(chars(offset), Some("Europe/Berlin"), None),
        ..empty()
    };
    let v = resolve(make("+01:00")).unwrap();
    assert_eq!(v.value.zone.variant, ZoneVariant::Standard);
    let v = resolve(make("+02:00")).unwrap();
    assert_eq!(v.value.zone.variant, ZoneVariant::Daylight);
    match resolve(make("+03:00")) {
        Err(Error::OffsetMismatch(o)) => {
            assert_eq!(o.0.standard, 3600);
            assert_eq!(o.0.daylight, Some(7200));
        }
        other => panic!("{other:?}"),
    }
}

#[test]
fn full_date_is_kept() {
    for (y, m, d) in [(2024, 2, 29), (2000, 2, 29), (-44, 3, 15), (1970, 1, 1), (MAX_YEAR, 12, 31), (MIN_YEAR, 1, 1)] {
        let v = resolve(Spec { year: Some(y), month: Some(m), day: Some(d), ..empty() }).unwrap();
        assert!(v.has_date());
        assert!(!v.has_time());
        assert!(!v.has_zone());
        assert_eq!(v.value.date, Date { year: y, month: m, day: d });
    }
}

#[test]
fn nothing_given_resolves_to_the_stand_ins() {
    let v = resolve(empty()).unwrap();
    assert!(!v.has_date() && !v.has_time() && !v.has_zone());
    assert_eq!(v.value.date, Date { year: 1970, month: 1, day: 1 });
    assert_eq!(v.value.time, Time { hour: 0, minute: 0, second: 0, nanosecond: 0 });
    assert_eq!(v.value.zone.id, "utc");
    assert_eq!(v.value.zone.offset, Some(0));
    assert_eq!(v.value.zone.variant, ZoneVariant::Standard);
}

#[test]
fn partial_dates_are_refused() {
    let combos = [
        (Some(2024), None, None),
        (None, Some(7), None),
        (None, None, Some(3)),
        (Some(2024), Some(7), None),
        (Some(2024), None, Some(3)),
        (None, Some(7), Some(3)),
    ];
    for (year, month, day) in combos {
        let plain = Spec { year, month, day, ..empty() };
        assert!(matches!(resolve(plain), Err(Error::PartialDate)));
        let crowded = Spec {
            year,
            month,
            day,
            minute: Some(99),
            zone: zone(chars("bogus"), Some("a"), Some("b")),
            ..empty()
        };
        assert!(matches!(resolve(crowded), Err(Error::PartialDate)));
    }
}

#[test]
fn partial_times_are_refused() {
    let subsets = [
        (Some(1), None, None),
        (None, Some(1), None),
        (None, None, Some(1)),
        (Some(1), Some(1), None),
        (Some(1), None, Some(1)),
        (None, Some(1), Some(1)),
        (Some(1), Some(1), Some(1)),
    ];
    for (minute, second, nanosecond) in subsets {
        let plain = Spec { minute, second, nanosecond, ..empty() };
        assert!(matches!(resolve(plain), Err(Error::PartialTime)));
        let dated = Spec {
            year: Some(2024),
            month: Some(7),
            day: Some(3),
            minute,
            second,
            nanosecond,
            zone: zone(None, Some("a"), Some("b")),
            ..empty()
        };
        assert!(matches!(resolve(dated), Err(Error::PartialTime)));
    }
}

#[test]
fn a_partial_date_comes_before_a_partial_time() {
    let spec = Spec { year: Some(1), minute: Some(1), ..empty() };
    assert!(matches!(resolve(spec), Err(Error::PartialDate)));
}

#[test]
fn a_bad_date_comes_before_a_partial_time() {
    let spec = Spec { year: Some(1), month: Some(13), day: Some(1), minute: Some(1), ..empty() };
    assert!(matches!(resolve(spec), Err(Error::DateRange(_))));
}

#[test]
fn smaller_time_fields_default_to_zero() {
    let v = resolve(Spec { hour: Some(23), ..empty() }).unwrap();
    assert!(v.has_time());
    assert_eq!(v.value.time, Time { hour: 23, minute: 0, second: 0, nanosecond: 0 });
    let v = resolve(Spec { hour: Some(0), second: Some(60), ..empty() }).unwrap();
    assert_eq!(v.value.time, Time { hour: 0, minute: 0, second: 60, nanosecond: 0 });
    let v = resolve(Spec { hour: Some(1), nanosecond: Some(999_999_999), ..empty() }).unwrap();
    assert_eq!(v.value.time.nanosecond, 999_999_999);
}

#[test]
fn two_identities_are_refused() {
    for (iana, bcp47) in [("America/Chicago", "uschi"), ("Europe/Berlin", "uschi"), ("", ""), ("?", "!")] {
        for offset in [None, chars("-05"), chars("bogus"), seconds(i32::MAX)] {
            let spec = Spec { zone: zone(offset, Some(iana), Some(bcp47)), ..empty() };
            assert!(matches!(resolve(spec), Err(Error::IanaAndBcp47)));
        }
    }
    let dated = Spec {
        year: Some(2024),
        month: Some(7),
        day: Some(3),
        hour: Some(1),
        zone: zone(chars("-05"), Some("America/Chicago"), Some("uschi")),
        ..empty()
    };
    assert!(matches!(resolve(dated), Err(Error::IanaAndBcp47)));
}

#[test]
fn a_zone_without_identity_is_unknown() {
    let v = resolve(Spec { zone: zone(None, None, None), ..empty() }).unwrap();
    assert!(v.has_zone());
    assert_eq!(v.value.zone.id, "unk");
    assert_eq!(v.value.zone.offset, None);
    assert_eq!(v.value.zone.variant, ZoneVariant::Standard);
    let v = resolve(Spec { zone: zone(chars("+05:30"), None, None), ..empty() }).unwrap();
    assert_eq!(v.value.zone.id, "unk");
    assert_eq!(v.value.zone.offset, Some(19800));
    assert_eq!(v.value.zone.variant, ZoneVariant::Standard);
}

#[test]
fn an_unknown_zone_with_offset_and_date_is_standard() {
    let spec = Spec {
        year: Some(2024),
        month: Some(7),
        day: Some(3),
        zone: zone(seconds(3600), None, None),
        ..empty()
    };
    let v = resolve(spec).unwrap();
    assert_eq!(v.value.zone.id, "unk");
    assert_eq!(v.value.zone.offset, Some(3600));
    assert_eq!(v.value.zone.variant, ZoneVariant::Standard);
}

#[test]
fn bcp47_identifiers_are_lowered() {
    let v = resolve(Spec { zone: zone(None, None, Some("UsChi")), ..empty() }).unwrap();
    assert_eq!(v.value.zone.id, "uschi");
    assert_eq!(v.value.zone.offset, None);
}

#[test]
fn malformed_bcp47_names_the_text() {
    for bad in ["", "u", "toolooong", "us-chi", "us chi", "usch\u{e9}"] {
        match resolve(Spec { zone: zone(chars("bogus"), None, Some(bad)), ..empty() }) {
            Err(Error::Bcp47(e, text)) => {
                assert_eq!(e, icu_locale_core::ParseError::InvalidSubtag);
                assert_eq!(text, bad);
            }
            other => panic!("{other:?}"),
        }
    }
}

#[test]
fn iana_names_are_looked_up() {
    let v = resolve(Spec { zone: zone(None, Some("asia/CALCUTTA"), None), ..empty() }).unwrap();
    assert_eq!(v.value.zone.id, "inccu");
    for unknown in ["America/San_Francisco", "", "uschi"] {
        let spec = Spec { zone: zone(chars("bogus"), Some(unknown), None), ..empty() };
        assert!(matches!(resolve(spec), Err(Error::UnknownIana)));
    }
}

#[test]
fn offsets_beyond_eighteen_hours_are_refused() {
    for ok in [64800, -64800, 0, 1] {
        let v = resolve(Spec { zone: zone(seconds(ok), None, None), ..empty() }).unwrap();
        assert_eq!(v.value.zone.offset, Some(ok));
    }
    for bad in [64801, -64801, i32::MAX, i32::MIN] {
        let spec = Spec { zone: zone(seconds(bad), None, None), ..empty() };
        assert!(matches!(resolve(spec), Err(Error::InvalidOffset)));
    }
}

#[test]
fn offset_texts_are_read() {
    let cases = [
        ("Z", 0),
        ("+05", 18000),
        ("+0530", 19800),
        ("-05:30", -19800),
        ("\u{2212}05", -18000),
        ("+18:00", 64800),
    ];
    for (text, expected) in cases {
        let v = resolve(Spec { zone: zone(chars(text), None, None), ..empty() }).unwrap();
        assert_eq!(v.value.zone.offset, Some(expected));
    }
    for bad in ["", "0500", "+05000", "+5", "+05:60", "+18:01", "bogus"] {
        let spec = Spec { zone: zone(chars(bad), None, None), ..empty() };
        assert!(matches!(resolve(spec), Err(Error::InvalidOffset)));
    }
}

#[test]
fn without_a_date_the_offsets_are_not_consulted() {
    let spec = Spec { hour: Some(6), zone: zone(chars("+09"), None, Some("uschi")), ..empty() };
    let v = resolve(spec).unwrap();
    assert_eq!(v.value.zone.id, "uschi");
    assert_eq!(v.value.zone.offset, Some(32400));
    assert_eq!(v.value.zone.variant, ZoneVariant::Standard);
}

#[test]
fn without_an_offset_the_zone_is_standard() {
    let spec = Spec {
        year: Some(2024),
        month: Some(7),
        day: Some(3),
        zone: zone(None, None, Some("uschi")),
        ..empty()
    };
    let v = resolve(spec).unwrap();
    assert_eq!(v.value.zone.offset, None);
    assert_eq!(v.value.zone.variant, ZoneVariant::Standard);
}

#[test]
fn fixed_zone_gets_its_offset() {
    let v = resolve(Spec { zone: zone(None, None, Some("utce05")), ..empty() }).unwrap();
    assert_eq!(v.value.zone.id, "unk");
    assert_eq!(v.value.zone.offset, Some(18000));
    assert_eq!(v.value.zone.variant, ZoneVariant::Standard);
    let v = resolve(Spec { zone: zone(None, None, Some("utc")), ..empty() }).unwrap();
    assert_eq!(v.value.zone.id, "utc");
    assert_eq!(v.value.zone.offset, Some(0));
}

#[test]
fn fixed_zone_with_another_offset_is_unknown() {
    let spec = Spec {
        year: Some(2024),
        month: Some(7),
        day: Some(3),
        zone: zone(seconds(3600), None, Some("utc")),
        ..empty()
    };
    let v = resolve(spec).unwrap();
    assert_eq!(v.value.zone.id, "unk");
    assert_eq!(v.value.zone.offset, None);
    assert_eq!(v.value.zone.variant, ZoneVariant::Standard);
}

#[test]
fn bad_month_is_reported() {
    for month in [0, 13, 255] {
        match resolve(Spec { year: Some(2023), month: Some(month), day: Some(99), ..empty() }) {
            Err(Error::DateRange(e)) => {
                assert_eq!((e.field, e.value, e.min, e.max), ("month", month as i32, 1, 12));
            }
            other => panic!("{other:?}"),
        }
    }
}

#[test]
fn bad_day_is_reported() {
    let cases = [
        (2023, 2, 29, 28),
        (2024, 2, 30, 29),
        (1900, 2, 29, 28),
        (2000, 2, 30, 29),
        (2023, 4, 31, 30),
        (2023, 6, 31, 30),
        (2023, 9, 31, 30),
        (2023, 11, 31, 30),
        (2023, 1, 32, 31),
        (2023, 12, 0, 31),
        (-4, 2, 30, 29),
    ];
    for (y, m, d, max) in cases {
        match resolve(Spec { year: Some(y), month: Some(m), day: Some(d), ..empty() }) {
            Err(Error::DateRange(e)) => {
                assert_eq!((e.field, e.value, e.min, e.max), ("day", d as i32, 1, max));
            }
            other => panic!("{other:?}"),
        }
    }
}

#[test]
fn bad_time_fields_are_reported_in_order() {
    let bad = |hour, minute, second, nanosecond| {
        match resolve(Spec { hour: Some(hour), minute, second, nanosecond, ..empty() }) {
            Err(Error::DateRange(e)) => (e.field, e.value, e.min, e.max),
            other => panic!("{other:?}"),
        }
    };
    assert_eq!(bad(24, Some(60), Some(61), Some(u32::MAX)), ("Hour", 24, 0, 23));
    assert_eq!(bad(23, Some(60), Some(61), Some(u32::MAX)), ("Minute", 60, 0, 59));
    assert_eq!(bad(23, Some(59), Some(61), Some(u32::MAX)), ("Second", 61, 0, 60));
    assert_eq!(bad(23, None, None, Some(1_000_000_000)), ("Nanosecond", 1_000_000_000, 0, 999_999_999));
    assert_eq!(bad(23, None, None, Some(3_000_000_000)), ("Nanosecond", -1294967296, 0, 999_999_999));
    assert_eq!(bad(23, None, None, Some(u32::MAX)), ("Nanosecond", -1, 0, 999_999_999));
}

#[test]
fn years_have_bounds() {
    assert_eq!((MIN_YEAR, MAX_YEAR), (-134_217_728, 134_217_728));
    for year in [MAX_YEAR + 1, MIN_YEAR - 1, 292_278_996, -292_275_055, 300_000_000, i32::MAX, i32::MIN] {
        let spec = Spec {
            year: Some(year),
            month: Some(7),
            day: Some(3),
            zone: zone(seconds(3600), None, Some("deber")),
            ..empty()
        };
        match resolve(spec) {
            Err(Error::DateRange(e)) => {
                assert_eq!((e.field, e.value, e.min, e.max), ("year", year, MIN_YEAR, MAX_YEAR));
            }
            other => panic!("{other:?}"),
        }
    }
}

#[test]
fn month_and_day_are_judged_before_the_year() {
    let spec = Spec { year: Some(i32::MAX), month: Some(13), day: Some(40), ..empty() };
    match resolve(spec) {
        Err(Error::DateRange(e)) => assert_eq!(e.field, "month"),
        other => panic!("{other:?}"),
    }
    let spec = Spec { year: Some(i32::MIN), month: Some(2), day: Some(30), ..empty() };
    match resolve(spec) {
        Err(Error::DateRange(e)) => assert_eq!((e.field, e.max), ("day", 29)),
        other => panic!("{other:?}"),
    }
}

#[test]
fn the_first_and_the_last_year_are_looked_up() {
    for (year, month, day) in [(MAX_YEAR, 12, 31), (MIN_YEAR, 1, 1)] {
        for offset in [3600, 7200] {
            let spec = Spec {
                year: Some(year),
                month: Some(month),
                day: Some(day),
                hour: Some(23),
                minute: Some(59),
                second: Some(60),
                nanosecond: Some(999_999_999),
                zone: zone(seconds(offset), None, Some("deber")),
            };
            let v = resolve(spec).unwrap();
            assert_eq!(v.value.date, Date { year, month, day });
            assert_eq!(v.value.zone.id, "deber");
            assert_eq!(v.value.zone.offset, Some(offset));
        }
    }
}

#[test]
fn the_zones_with_a_fixed_offset() {
    let join = |id: &str, offset: Option<i32>| {
        let v = resolve(Spec { zone: zone(offset.and_then(seconds), None, Some(id)), ..empty() })
            .unwrap();
        (v.value.zone.id, v.value.zone.offset)
    };
    let unk = |offset: Option<i32>| ("unk".to_string(), offset);
    assert_eq!(join("utc", None), ("utc".to_string(), Some(0)));
    assert_eq!(join("gmt", None), ("gmt".to_string(), Some(0)));
    assert_eq!(join("utc", Some(0)), ("utc".to_string(), Some(0)));
    assert_eq!(join("gmt", Some(60)), unk(None));
    for hours in 1..=14 {
        let id = format!("utce{hours:02}");
        assert_eq!(join(&id, None), unk(Some(hours * 3600)));
        assert_eq!(join(&id, Some(hours * 3600)), (id.clone(), Some(hours * 3600)));
        assert_eq!(join(&id, Some(-hours * 3600)), unk(None));
    }
    for hours in 1..=12 {
        let id = format!("utcw{hours:02}");
        assert_eq!(join(&id, None), unk(Some(-hours * 3600)));
        assert_eq!(join(&id, Some(-hours * 3600)), (id.clone(), Some(-hours * 3600)));
        assert_eq!(join(&id, Some(hours * 3600)), unk(None));
    }
    for id in ["utce00", "utce15", "utcw00", "utcw13", "utce1", "utcn01", "utce0a", "utd", "gmt0", "uschi", "unk"] {
        assert_eq!(join(id, None), (id.to_string(), None));
        assert_eq!(join(id, Some(12345)), (id.to_string(), Some(12345)));
    }
}

#[test]
fn an_iana_name_for_a_fixed_offset_becomes_unknown() {
    let v = resolve(Spec { zone: zone(None, Some("Etc/GMT-5"), None), ..empty() }).unwrap();
    assert_eq!(v.value.zone.id, "unk");
    assert_eq!(v.value.zone.offset, Some(18000));
    let v = resolve(Spec { zone: zone(seconds(18000), Some("Etc/GMT-5"), None), ..empty() }).unwrap();
    assert_eq!(v.value.zone.id, "utce05");
    assert_eq!(v.value.zone.offset, Some(18000));
    let v = resolve(Spec { zone: zone(None, Some("Etc/UTC"), None), ..empty() }).unwrap();
    assert_eq!(v.value.zone.id, "utc");
    assert_eq!(v.value.zone.offset, Some(0));
}
