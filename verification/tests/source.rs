use config::{Config, File, FileFormat};
use paperwatch::clock::{Moment, Weekday};
use paperwatch::error::{Field, SettingsError, TimeFault, UnitTime};
use paperwatch::scheduler::Scheduler;
use paperwatch::settings::Settings;
use paperwatch::source::read_settings;
use paperwatch::storage::Storage;
use paperwatch::trigger::Action;

fn load(text: &str) -> Config {
    Config::builder().add_source(File::from_str(text, FileFormat::Toml)).build().unwrap()
}

const GOOD: &str = r#"
[default]
time = "08:00"
weekday = "Wed"
keyword = ["solid state battery", "graphene", "graphene"]
email = "reader@example.org"

[profile]
id = "crawler"
password = "SECRET-REDACTED"
"#;

#[test]
fn reads_every_setting_from_the_configuration() {
    let raw = read_settings(&load(GOOD));
    assert_eq!(raw.time.as_deref(), Some("08:00"));
    assert_eq!(raw.weekday.as_deref(), Some("Wed"));
    assert_eq!(raw.email.as_deref(), Some("reader@example.org"));
    assert_eq!(raw.id.as_deref(), Some("crawler"));
    assert_eq!(raw.password.as_deref(), Some("SECRET-REDACTED"));
    assert_eq!(
        raw.keyword,
        Some(vec!["solid state battery".to_string(), "graphene".to_string(), "graphene".to_string()])
    );
}

#[test]
fn settings_from_a_configuration() {
    let s = Settings::new(&load(GOOD)).unwrap();
    assert_eq!(s.target(), Moment { weekday: Weekday::Wed, hour: 8, minute: 0 });
    assert_eq!(s.keyword(), &vec!["solid state battery".to_string(), "graphene".to_string()]);
    assert_eq!(s.password(), "SECRET-REDACTED");
}

#[test]
fn reload_with_time_25_00_is_refused_and_changes_nothing() {
    let mut s = Settings::new(&load(GOOD)).unwrap();
    let bad = GOOD.replace("08:00", "25:00").replace("Wed", "Mon").replace("reader@", "other@");
    match s.update_settings(&load(&bad)) {
        Err(SettingsError::TimeFormat(e)) => {
            assert_eq!(e.fault, TimeFault::OutOfRange(UnitTime::Hour));
            assert_eq!(e.value, "25");
        }
        other => panic!("unexpected outcome {:?}", other),
    }
    assert_eq!(s.target(), Moment { weekday: Weekday::Wed, hour: 8, minute: 0 });
    assert_eq!(s.email(), "reader@example.org");
}

#[test]
fn missing_and_misshapen_settings_are_unreadable() {
    let raw = read_settings(&load("[default]\ntime = \"08:00\"\nkeyword = \"graphene\"\n"));
    assert_eq!(raw.keyword, None);
    assert_eq!(raw.email, None);
    assert_eq!(raw.id, None);
    assert_eq!(raw.time.as_deref(), Some("08:00"));
    let no_profile = GOOD.replace("id = \"crawler\"", "");
    assert!(matches!(
        Settings::new(&load(&no_profile)),
        Err(SettingsError::Unreadable(Field::Id))
    ));
    let no_list = GOOD.replace("[\"solid state battery\", \"graphene\", \"graphene\"]", "7");
    assert!(matches!(
        Settings::new(&load(&no_list)),
        Err(SettingsError::Unreadable(Field::Keyword))
    ));
}

#[test]
fn numbers_are_read_as_their_text() {
    let raw = read_settings(&load("[default]\ntime = 800\nkeyword = [1, \"two\"]\n"));
    assert_eq!(raw.time.as_deref(), Some("800"));
    assert_eq!(raw.keyword, Some(vec!["1".to_string(), "two".to_string()]));
}

#[test]
fn empty_credentials_are_refused() {
    let bad = GOOD.replace("SECRET-REDACTED", "");
    match Settings::new(&load(&bad)) {
        Err(SettingsError::Profile(p)) => {
            assert!(!p.id_empty);
            assert!(p.password_empty);
        }
        other => panic!("unexpected outcome {:?}", other),
    }
}

#[test]
fn store_and_scheduler_take_their_settings_from_a_configuration() {
    let mut store = Storage::new();
    store.update_settings(&load(GOOD)).unwrap();
    assert_eq!(store.time_from_settings(), (8, 0, Weekday::Wed));
    assert_eq!(
        store.keyword_from_settings(),
        vec!["solid state battery".to_string(), "graphene".to_string()]
    );
    assert!(store.update_settings(&load(&GOOD.replace("Wed", "Wednesday"))).is_err());
    assert_eq!(store.time_from_settings(), (8, 0, Weekday::Wed));
    assert_eq!(store.send_email().to, "reader@example.org");

    let mut scheduler = Scheduler::default();
    scheduler.update_scheduler(&load(&GOOD.replace("08:00", "21:15").replace("Wed", "Sun"))).unwrap();
    let sunday = Moment { weekday: Weekday::Sun, hour: 21, minute: 15 };
    assert_eq!(scheduler.target(), sunday);
    assert_eq!(scheduler.keyword().len(), 2);
    assert!(scheduler.update_scheduler(&load(&GOOD.replace("08:00", "25:00"))).is_err());
    assert_eq!(scheduler.target(), sunday);
    assert_eq!(scheduler.poll(sunday), Action::RunCycle);
}
