use timez::errors::TimezError;
use timez::settings::{copy_names, Content, Entry, Settings, Source};

fn names(list: &[&str]) -> Vec<String> {
    list.iter().map(|s| s.to_string()).collect()
}

fn source(name: &str, required: bool, content: Content) -> Source {
    Source { name: name.to_string(), required, content }
}

fn holding(name: &str, list: &[&str]) -> Source {
    source(name, false, Content::Parsed(Entry::Names(names(list))))
}

fn shape_error(message: &str) -> TimezError {
    TimezError::ConfigShapeError { message: message.to_string() }
}

#[test]
fn settings_come_from_the_one_source_that_is_there() {
    let sources = vec![holding("timez", &["Europe/London", "America/Chicago", "Asia/Kabul"])];
    let settings = Settings::new(&sources).unwrap();
    assert_eq!(settings.timezones, names(&["Europe/London", "America/Chicago", "Asia/Kabul"]));
}

#[test]
fn the_order_of_the_names_is_kept() {
    let sources = vec![holding("timez", &["Asia/Kabul", "Europe/London", "Asia/Kabul"])];
    let settings = Settings::new(&sources).unwrap();
    assert_eq!(settings.timezones, names(&["Asia/Kabul", "Europe/London", "Asia/Kabul"]));
}

#[test]
fn the_first_source_that_sets_the_key_wins() {
    let sources = vec![
        holding("timez", &["Europe/London"]),
        holding("/home/someone/.timez", &["Asia/Kabul", "Asia/Tokyo"]),
    ];
    assert_eq!(Settings::new(&sources).unwrap().timezones, names(&["Europe/London"]));
}

#[test]
fn a_source_that_is_absent_or_silent_leaves_the_word_to_the_next() {
    let sources = vec![
        source("timez", false, Content::Absent),
        source("elsewhere", false, Content::Parsed(Entry::Unset)),
        holding("/home/someone/.timez", &["Asia/Kabul"]),
        holding("last", &["Europe/Paris"]),
    ];
    assert_eq!(Settings::new(&sources).unwrap().timezones, names(&["Asia/Kabul"]));
}

#[test]
fn an_empty_list_is_a_list() {
    let sources = vec![holding("timez", &[]), holding("later", &["Asia/Kabul"])];
    assert_eq!(Settings::new(&sources).unwrap().timezones, names(&[]));
}

#[test]
fn a_required_source_that_is_absent_is_not_found() {
    let sources = vec![source("timez", true, Content::Absent)];
    let e = Settings::new(&sources).unwrap_err();
    assert_eq!(e, TimezError::ConfigNotFound { source: "timez".to_string() });
    assert_eq!(e.message(), "configuration file \"timez\" not found");
}

#[test]
fn a_required_source_that_is_absent_fails_even_after_a_good_one() {
    let sources = vec![holding("timez", &["Europe/London"]), source("must", true, Content::Absent)];
    assert_eq!(
        Settings::new(&sources),
        Err(TimezError::ConfigNotFound { source: "must".to_string() })
    );
}

#[test]
fn a_malformed_source_is_a_parse_error_with_the_diagnostic() {
    let sources = vec![
        source("timez", false, Content::Absent),
        source("broken", false, Content::Malformed("expected `=` at line 1".to_string())),
        holding("good", &["Europe/London"]),
    ];
    let e = Settings::new(&sources).unwrap_err();
    assert_eq!(e, TimezError::ConfigParseError { message: "expected `=` at line 1".to_string() });
    assert_eq!(e.message(), "expected `=` at line 1");
}

#[test]
fn the_first_failing_source_decides_the_error() {
    let sources = vec![
        source("broken", false, Content::Malformed("first".to_string())),
        source("must", true, Content::Absent),
        source("worse", false, Content::Malformed("second".to_string())),
    ];
    assert_eq!(
        Settings::new(&sources),
        Err(TimezError::ConfigParseError { message: "first".to_string() })
    );
    let sources = vec![
        source("must", true, Content::Absent),
        source("broken", false, Content::Malformed("first".to_string())),
    ];
    assert_eq!(
        Settings::new(&sources),
        Err(TimezError::ConfigNotFound { source: "must".to_string() })
    );
}

#[test]
fn no_source_at_all_is_a_missing_key() {
    let e = Settings::new(&Vec::new()).unwrap_err();
    assert_eq!(e, shape_error("missing field `timezones`"));
    assert_eq!(e.message(), "missing field `timezones`");
}

#[test]
fn nothing_present_and_nothing_required_is_a_missing_key() {
    let sources = vec![
        source("timez", false, Content::Absent),
        source("/home/someone/.timez", false, Content::Absent),
    ];
    assert_eq!(Settings::new(&sources), Err(shape_error("missing field `timezones`")));
    let silent = vec![source("timez", true, Content::Parsed(Entry::Unset))];
    assert_eq!(Settings::new(&silent), Err(shape_error("missing field `timezones`")));
}

#[test]
fn a_key_of_the_wrong_shape_is_a_shape_error() {
    let wrong = "invalid type: string \"Europe/London\", expected a sequence";
    let sources = vec![
        source("timez", false, Content::Parsed(Entry::Misshapen(wrong.to_string()))),
        holding("later", &["Asia/Kabul"]),
    ];
    let e = Settings::new(&sources).unwrap_err();
    assert_eq!(e, shape_error(wrong));
    assert_eq!(e.message(), wrong);
}

#[test]
fn a_later_wrong_shape_does_not_matter() {
    let sources = vec![
        holding("timez", &["Asia/Kabul"]),
        source("later", false, Content::Parsed(Entry::Misshapen("wrong".to_string()))),
    ];
    assert_eq!(Settings::new(&sources).unwrap().timezones, names(&["Asia/Kabul"]));
}

#[test]
fn loading_does_not_validate() {
    let sources = vec![holding("timez", &["Not/AZone"])];
    let settings = Settings::new(&sources).unwrap();
    assert_eq!(settings.timezones, names(&["Not/AZone"]));
    assert!(settings.validate().is_err());
}

#[test]
fn copy_names_copies() {
    let list = names(&["a", "", "Europe/London"]);
    assert_eq!(copy_names(&list), list);
    assert_eq!(copy_names(&Vec::new()), Vec::<String>::new());
}

#[test]
fn valid_names_validate() {
    let settings = Settings { timezones: names(&["Europe/London", "America/Chicago", "Asia/Kabul"]) };
    assert_eq!(settings.validate(), Ok(()));
    assert_eq!(Settings { timezones: Vec::new() }.validate(), Ok(()));
}

#[test]
fn one_invalid_name_is_reported_by_name() {
    let settings = Settings { timezones: names(&["Europe/London", "Not/AZone", "Asia/Kabul"]) };
    let e = settings.validate().unwrap_err();
    assert_eq!(
        e,
        TimezError::InvalidTimezone {
            name: "Not/AZone".to_string(),
            message: "failed to parse timezone".to_string(),
        }
    );
    assert_eq!(
        e.message(),
        "the timezone string 'Not/AZone' is not valid: failed to parse timezone"
    );
}

#[test]
fn the_first_invalid_name_is_the_one_reported() {
    let settings = Settings { timezones: names(&["Europe/London", "Mars/Olympus", "Not/AZone"]) };
    match settings.validate() {
        Err(TimezError::InvalidTimezone { name, .. }) => assert_eq!(name, "Mars/Olympus"),
        other => panic!("{other:?}"),
    }
    let settings = Settings { timezones: names(&["", "Europe/London"]) };
    match settings.validate() {
        Err(TimezError::InvalidTimezone { name, .. }) => assert_eq!(name, ""),
        other => panic!("{other:?}"),
    }
}

#[test]
fn validation_agrees_with_the_zone_database() {
    for name in ["Europe/London", "UTC", "Etc/GMT+4", "US/Eastern", "Asia/Kabul", "europe/london", "London", "GMT+25", " Europe/London"] {
        let theirs = name.parse::<chrono_tz::Tz>().is_ok();
        let ours = Settings { timezones: names(&[name]) }.validate().is_ok();
        assert_eq!(ours, theirs, "{name}");
    }
}

#[test]
fn validation_leaves_the_settings_as_they_were() {
    let settings = Settings { timezones: names(&["Europe/London", "Not/AZone"]) };
    let before = settings.clone();
    let _ = settings.validate();
    let _ = settings.validate();
    assert_eq!(settings, before);
}

#[test]
fn resolving_gives_the_zones_in_order_or_the_first_invalid_name() {
    let settings = Settings { timezones: names(&["Asia/Kabul", "Europe/London", "Asia/Kabul"]) };
    let zones = settings.resolve().unwrap();
    let resolved: Vec<&str> = zones.iter().map(|z| z.name()).collect();
    assert_eq!(resolved, ["Asia/Kabul", "Europe/London", "Asia/Kabul"]);
    let settings = Settings { timezones: names(&["Asia/Kabul", "Not/AZone", "Mars/Olympus"]) };
    assert_eq!(
        settings.resolve().map(|zones| zones.len()),
        Err(TimezError::InvalidTimezone {
            name: "Not/AZone".to_string(),
            message: "failed to parse timezone".to_string(),
        })
    );
    assert_eq!(Settings { timezones: Vec::new() }.resolve().map(|zones| zones.len()), Ok(0));
}
