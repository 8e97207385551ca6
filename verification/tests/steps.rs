use temporal_spec::date::Date;
use temporal_spec::format::{Spec, SpecifiedZonedDateTime, TimezoneSpec, UtcOffsetSpec};
use temporal_spec::resolve::{
    resolve_identity, resolve_variant, resolve_zone, validate_date, validate_time,
};
use temporal_spec::time::Time;
use temporal_spec::zone::{TimeZoneInfo, ZoneVariant};
use temporal_spec::Error;

const SUMMER: Date = Date { year: 2024, month: 7, day: 3 };
const NOON: Time = Time { hour: 12, minute: 0, second: 0, nanosecond: 0 };

#[test]
fn date_step() {
    assert_eq!(validate_date(Some(2024), Some(7), Some(3)).unwrap(), (true, SUMMER));
    assert_eq!(validate_date(None, None, None).unwrap(), (false, Date::epoch()));
    assert!(matches!(validate_date(None, Some(7), Some(3)), Err(Error::PartialDate)));
    assert!(matches!(validate_date(Some(2024), Some(7), Some(32)), Err(Error::DateRange(_))));
}

#[test]
fn time_step() {
    assert_eq!(validate_time(Some(12), None, None, None).unwrap(), (true, NOON));
    assert_eq!(validate_time(None, None, None, None).unwrap(), (false, Time::start_of_day()));
    assert!(matches!(validate_time(None, Some(0), None, None), Err(Error::PartialTime)));
    assert!(matches!(validate_time(Some(12), Some(60), None, None), Err(Error::DateRange(_))));
}

#[test]
fn identity_step() {
    assert_eq!(resolve_identity(None, None).unwrap(), "unk");
    assert_eq!(resolve_identity(Some("DeBer".to_string()), None).unwrap(), "deber");
    assert_eq!(resolve_identity(None, Some("Europe/Berlin".to_string())).unwrap(), "deber");
    assert_eq!(resolve_identity(None, Some("Europe/Oslo".to_string())).unwrap(), "noosl");
    assert!(matches!(
        resolve_identity(Some("x".to_string()), Some("y".to_string())),
        Err(Error::IanaAndBcp47)
    ));
    assert!(matches!(resolve_identity(None, Some("Etc/Unknown".to_string())), Err(Error::UnknownIana)));
}

#[test]
fn variant_step() {
    let standard = resolve_variant("deber", Some(3600), true, SUMMER, NOON).unwrap();
    assert_eq!(standard, ZoneVariant::Standard);
    let daylight = resolve_variant("deber", Some(7200), true, SUMMER, NOON).unwrap();
    assert_eq!(daylight, ZoneVariant::Daylight);
    assert!(matches!(
        resolve_variant("deber", Some(0), true, SUMMER, NOON),
        Err(Error::OffsetMismatch(_))
    ));
    assert_eq!(
        resolve_variant("deber", Some(0), false, Date::epoch(), NOON).unwrap(),
        ZoneVariant::Standard
    );
    assert_eq!(resolve_variant("deber", None, true, SUMMER, NOON).unwrap(), ZoneVariant::Standard);
}

#[test]
fn phoenix_has_no_daylight_offset() {
    assert_eq!(
        resolve_variant("usphx", Some(-25200), true, SUMMER, NOON).unwrap(),
        ZoneVariant::Standard
    );
    match resolve_variant("usphx", Some(-21600), true, SUMMER, NOON) {
        Err(Error::OffsetMismatch(offsets)) => {
            assert_eq!(offsets.to_string(), "standard=-07, daylight=n/a");
        }
        other => panic!("{other:?}"),
    }
}

#[test]
fn zone_step() {
    let (given, zone) = resolve_zone(None, true, SUMMER, NOON).unwrap();
    assert!(!given);
    let utc = TimeZoneInfo::utc();
    assert_eq!((zone.id, zone.offset, zone.variant), (utc.id, utc.offset, utc.variant));

    let spec = TimezoneSpec {
        offset: Some(UtcOffsetSpec::OffsetSeconds(7200)),
        iana: Some("Europe/Berlin".to_string()),
        bcp47: None,
    };
    let (given, zone) = resolve_zone(Some(spec), true, SUMMER, NOON).unwrap();
    assert!(given);
    assert_eq!(zone.id, "deber");
    assert_eq!(zone.offset, Some(7200));
    assert_eq!(zone.variant, ZoneVariant::Daylight);
}

#[test]
fn offsets_are_read_in_seconds() {
    assert_eq!(UtcOffsetSpec::OffsetSeconds(-3600).to_seconds().unwrap(), -3600);
    assert_eq!(UtcOffsetSpec::Chars("+01:30".to_string()).to_seconds().unwrap(), 5400);
    assert!(matches!(UtcOffsetSpec::OffsetSeconds(64801).to_seconds(), Err(Error::InvalidOffset)));
    assert!(matches!(UtcOffsetSpec::Chars("1".to_string()).to_seconds(), Err(Error::InvalidOffset)));
}

#[test]
fn the_value_is_read_through_its_getter() {
    let spec = Spec {
        year: Some(2024),
        month: Some(7),
        day: Some(3),
        hour: Some(12),
        minute: None,
        second: None,
        nanosecond: None,
        zone: None,
    };
    let resolved = SpecifiedZonedDateTime::try_from(spec).unwrap();
    assert_eq!(resolved.value().date, SUMMER);
    assert_eq!(resolved.value().time, NOON);
    assert_eq!(resolved.value().zone.id, "utc");
}
