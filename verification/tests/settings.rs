use paperwatch::clock::{Moment, Weekday};
use paperwatch::error::{Field, ProfileException, SettingsError, TimeFault, UnitTime};
use paperwatch::settings::{parse_clock, parse_time, parse_weekday, RawSettings, Settings};

fn raw(time: &str, weekday: &str) -> RawSettings {
    RawSettings {
        keyword: Some(vec!["graphene".to_string(), "perovskite".to_string(), "graphene".to_string()]),
        email: Some("reader@example.org".to_string()),
        time: Some(time.to_string()),
        weekday: Some(weekday.to_string()),
        id: Some("crawler".to_string()),
        password: Some("SECRET-REDACTED".to_string()),
    }
}

#[test]
fn accepts_a_complete_configuration() {
    let s = Settings::from_raw(&raw("07:45", "Fri")).unwrap();
    assert_eq!(s.target(), Moment { weekday: Weekday::Fri, hour: 7, minute: 45 });
    assert_eq!(s.keyword(), &vec!["graphene".to_string(), "perovskite".to_string()]);
    assert_eq!(s.email(), "reader@example.org");
    assert_eq!(s.id(), "crawler");
    assert!(s.has_profile());
}

#[test]
fn reload_with_hour_25_keeps_the_target() {
    let mut s = Settings::from_raw(&raw("07:45", "Fri")).unwrap();
    let before = s.target();
    match s.apply(&raw("25:00", "Mon")) {
        Err(SettingsError::TimeFormat(e)) => {
            assert_eq!(e.fault, TimeFault::OutOfRange(UnitTime::Hour));
            assert_eq!(e.value, "25");
        }
        other => panic!("unexpected outcome {:?}", other),
    }
    assert_eq!(s.target(), before);
    assert_eq!(s.keyword().len(), 2);
}

#[test]
fn clock_edge_cases() {
    assert_eq!(parse_clock("00:00").unwrap(), (0, 0));
    assert_eq!(parse_clock("23:59").unwrap(), (23, 59));
    assert_eq!(parse_clock("+8:+5").unwrap(), (8, 5));
    assert_eq!(parse_clock("24:00").unwrap_err().fault, TimeFault::OutOfRange(UnitTime::Hour));
    assert_eq!(parse_clock("12:60").unwrap_err().fault, TimeFault::OutOfRange(UnitTime::Minute));
    assert_eq!(parse_clock("1200").unwrap_err().fault, TimeFault::MissingSplicer);
    assert_eq!(parse_clock("1200").unwrap_err().value, "1200");
    assert_eq!(parse_clock(":30").unwrap_err().fault, TimeFault::NotANumber(UnitTime::Hour));
    assert_eq!(parse_clock("12:").unwrap_err().fault, TimeFault::NotANumber(UnitTime::Minute));
    assert_eq!(parse_clock("12:30:15").unwrap_err().fault, TimeFault::NotANumber(UnitTime::Minute));
    assert_eq!(parse_clock("12:30:15").unwrap_err().value, "30:15");
    assert_eq!(parse_clock(" 8:00").unwrap_err().fault, TimeFault::NotANumber(UnitTime::Hour));
    assert_eq!(parse_clock("99999999999:00").unwrap_err().fault, TimeFault::NotANumber(UnitTime::Hour));
}

#[test]
fn unit_values() {
    assert_eq!(parse_time("007", UnitTime::Hour).unwrap(), 7);
    assert_eq!(parse_time("59", UnitTime::Minute).unwrap(), 59);
    let e = parse_time("0061", UnitTime::Minute).unwrap_err();
    assert_eq!(e.fault, TimeFault::OutOfRange(UnitTime::Minute));
    assert_eq!(e.value, "61");
    assert_eq!(parse_time("4294967295", UnitTime::Hour).unwrap_err().value, "4294967295");
    assert_eq!(parse_time("4294967296", UnitTime::Hour).unwrap_err().fault, TimeFault::NotANumber(UnitTime::Hour));
    assert_eq!(parse_time("-1", UnitTime::Hour).unwrap_err().fault, TimeFault::NotANumber(UnitTime::Hour));
    assert_eq!(parse_time("+", UnitTime::Hour).unwrap_err().fault, TimeFault::NotANumber(UnitTime::Hour));
}

#[test]
fn weekday_names() {
    assert_eq!(parse_weekday("Mon").unwrap(), Weekday::Mon);
    assert_eq!(parse_weekday("Sun").unwrap(), Weekday::Sun);
    assert_eq!(parse_weekday("mon").unwrap_err().value, "mon");
    assert_eq!(parse_weekday("Monday").unwrap_err().value, "Monday");
}

#[test]
fn first_fault_wins() {
    let mut r = raw("25:00", "Someday");
    r.id = Some(String::new());
    assert!(matches!(Settings::from_raw(&r), Err(SettingsError::TimeFormat(_))));
    r.time = Some("08:00".to_string());
    assert!(matches!(Settings::from_raw(&r), Err(SettingsError::Weekday(_))));
    r.weekday = Some("Wed".to_string());
    match Settings::from_raw(&r) {
        Err(SettingsError::Profile(p)) => {
            assert_eq!(p, ProfileException { id_empty: true, password_empty: false })
        }
        other => panic!("unexpected outcome {:?}", other),
    }
    r.email = None;
    assert!(matches!(Settings::from_raw(&r), Err(SettingsError::Unreadable(Field::Email))));
}

#[test]
fn defaults_are_wednesday_eight() {
    let s = Settings::default();
    assert_eq!(s.target(), Moment { weekday: Weekday::Wed, hour: 8, minute: 0 });
    assert!(s.keyword().is_empty());
    assert!(!s.has_profile());
}
