use temporal_spec::datetime::{DateTime, Spec as DateTimeSpec};
use temporal_spec::timezone::{CustomTimeZone, GmtOffsetSpec, MetazoneSpec, Spec, TimezoneIdSpec};
use temporal_spec::Error;
use tinystr::TinyStrError;

fn spec(offset: GmtOffsetSpec) -> Spec {
    Spec { offset, timezone_id: None, metazone: None, zone_variant: None }
}

fn chars(text: &str) -> GmtOffsetSpec {
    GmtOffsetSpec::Chars(text.to_string())
}

#[test]
fn gmt_offsets_in_seconds() {
    for ok in [0, 1, -1, 64800, -64800] {
        assert_eq!(GmtOffsetSpec::OffsetSeconds(ok).to_seconds().unwrap(), ok);
    }
    for bad in [64801, -64801, i32::MAX, i32::MIN] {
        assert!(matches!(GmtOffsetSpec::OffsetSeconds(bad).to_seconds(), Err(Error::InvalidOffset)));
    }
}

#[test]
fn gmt_offsets_in_text() {
    for (text, expected) in [("Z", 0), ("+05", 18000), ("-0530", -19800), ("+14:00", 50400)] {
        assert_eq!(chars(text).to_seconds().unwrap(), expected);
    }
    for bad in ["", "5", "+5", "+05:60", "+19", "zulu"] {
        assert!(matches!(chars(bad).to_seconds(), Err(Error::InvalidOffset)));
    }
}

#[test]
fn an_offset_alone_makes_a_zone() {
    let (zone, at) = CustomTimeZone::try_from(spec(chars("+02"))).unwrap();
    assert_eq!(zone.gmt_offset, Some(7200));
    assert_eq!(zone.time_zone_id, None);
    assert_eq!(zone.metazone_id, None);
    assert_eq!(zone.zone_variant, None);
    assert_eq!(at, None);
}

#[test]
fn identifiers_are_kept_or_mapped() {
    let mut given = spec(chars("-06"));
    given.timezone_id = Some(TimezoneIdSpec::Bcp47("uschi".to_string()));
    given.zone_variant = Some("dt".to_string());
    given.metazone = Some(MetazoneSpec::Id("amce".to_string()));
    let (zone, at) = CustomTimeZone::try_from(given).unwrap();
    assert_eq!(zone.time_zone_id.as_deref(), Some("uschi"));
    assert_eq!(zone.zone_variant.as_deref(), Some("dt"));
    assert_eq!(zone.metazone_id.as_deref(), Some("amce"));
    assert_eq!(at, None);

    let mut given = spec(chars("-06"));
    given.timezone_id = Some(TimezoneIdSpec::Iana("America/Chicago".to_string()));
    let (zone, _) = CustomTimeZone::try_from(given).unwrap();
    assert_eq!(zone.time_zone_id.as_deref(), Some("uschi"));
}

#[test]
fn identifiers_that_do_not_fit_are_refused() {
    let cases = [
        ("toolooong", TinyStrError::TooLarge { max: 8, len: 9 }),
        ("usch\u{e9}", TinyStrError::NonAscii),
        ("a\u{0}b", TinyStrError::ContainsNull),
    ];
    for (bad, fault) in cases {
        let mut given = spec(chars("-06"));
        given.timezone_id = Some(TimezoneIdSpec::Bcp47(bad.to_string()));
        match CustomTimeZone::try_from(given) {
            Err(Error::TinyStr(e, text)) => {
                assert_eq!(e, fault);
                assert_eq!(text, bad);
            }
            other => panic!("{other:?}"),
        }
    }
    for fits in ["", "u", "US-CHI", "eight888"] {
        assert_eq!(TimezoneIdSpec::Bcp47(fits.to_string()).to_bcp47().unwrap(), fits);
    }
}

#[test]
fn unknown_iana_names_are_refused() {
    let mut given = spec(chars("-06"));
    given.timezone_id = Some(TimezoneIdSpec::Iana("America/San_Francisco".to_string()));
    match CustomTimeZone::try_from(given) {
        Err(Error::IanaIdNotFound(name)) => assert_eq!(name, "America/San_Francisco"),
        other => panic!("{other:?}"),
    }
}

#[test]
fn the_offset_is_judged_first() {
    let mut given = spec(chars("bogus"));
    given.timezone_id = Some(TimezoneIdSpec::Bcp47("toolooong".to_string()));
    assert!(matches!(CustomTimeZone::try_from(given), Err(Error::InvalidOffset)));
}

#[test]
fn a_local_date_is_handed_back_for_the_metazone() {
    let at = DateTimeSpec {
        year: 1971,
        month: 10,
        day: 31,
        hour: 2,
        minute: 0,
        second: 0,
        nanosecond: 0,
    };
    let mut given = spec(chars("+10"));
    given.timezone_id = Some(TimezoneIdSpec::Bcp47("gugum".to_string()));
    given.metazone = Some(MetazoneSpec::LocalDate(at));
    let (zone, pending) = CustomTimeZone::try_from(given).unwrap();
    assert_eq!(zone.metazone_id, None);
    assert_eq!(pending, Some(DateTime::try_from(at).unwrap()));

    let mut given = spec(chars("+10"));
    given.metazone = Some(MetazoneSpec::LocalDate(DateTimeSpec { month: 13, ..at }));
    assert!(matches!(CustomTimeZone::try_from(given), Err(Error::DateRange(_))));
}

#[test]
fn date_and_time_come_before_the_zone() {
    let at = DateTimeSpec {
        year: 2024,
        month: 7,
        day: 3,
        hour: 6,
        minute: 12,
        second: 4,
        nanosecond: 0,
    };
    let given = temporal_spec::zoned_datetime::Spec { datetime: at, timezone: spec(chars("-05")) };
    let (found, zone) = temporal_spec::zoned_datetime::try_from(given).unwrap();
    assert_eq!(found, DateTime::try_from(at).unwrap());
    assert_eq!(zone.gmt_offset, Some(-18000));

    let given = temporal_spec::zoned_datetime::Spec {
        datetime: DateTimeSpec { hour: 24, ..at },
        timezone: spec(chars("bogus")),
    };
    assert!(matches!(temporal_spec::zoned_datetime::try_from(given), Err(Error::DateRange(_))));

    let given = temporal_spec::zoned_datetime::Spec { datetime: at, timezone: spec(chars("bogus")) };
    assert!(matches!(temporal_spec::zoned_datetime::try_from(given), Err(Error::InvalidOffset)));
}
