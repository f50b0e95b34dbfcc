use timez::civil::CivilTime;
use timez::cmds::{
    cmd_as, cmd_convert, cmd_now, cmd_validate, fail, fail_with, lines_for_settings,
    lines_for_zones, report_convert, report_now, report_validate, succeed, Outcome,
};
use timez::errors::TimezError;
use timez::offset::UtcOffset;
use timez::settings::{Content, Entry, Settings, Source};
use timez::timestamps::Timestamp;
use timez::zones::Zone;

fn lines(list: &[&str]) -> Vec<String> {
    list.iter().map(|s| s.to_string()).collect()
}

fn holding(list: &[&str]) -> Vec<Source> {
    vec![
        Source { name: "timez".to_string(), required: false, content: Content::Absent },
        Source {
            name: "/home/someone/.timez".to_string(),
            required: false,
            content: Content::Parsed(Entry::Names(lines(list))),
        },
    ]
}

fn nothing() -> Vec<Source> {
    vec![Source { name: "timez".to_string(), required: true, content: Content::Absent }]
}

fn printed(list: &[&str]) -> Outcome {
    Outcome { stdout: lines(list), stderr: Vec::new(), exit_code: 0 }
}

fn failed(list: &[&str]) -> Outcome {
    Outcome { stdout: Vec::new(), stderr: lines(list), exit_code: 1 }
}

fn utc_moment() -> CivilTime {
    CivilTime::new(2024, 10, 30, 16, 8, 42).unwrap()
}

fn local_moment() -> Timestamp {
    Timestamp::Local {
        at: CivilTime::new(2024, 10, 30, 11, 8, 42).unwrap(),
        offset: UtcOffset::new(-18_000).unwrap(),
    }
}

const NOT_FOUND: &str = "configuration file \"timez\" not found";
const NOT_A_ZONE: &str = "the timezone string 'Not/AZone' is not valid: failed to parse timezone";

#[test]
fn now_prints_the_local_time_and_each_zone() {
    let sources = holding(&["Europe/London", "Asia/Chongqing", "Asia/Kabul"]);
    assert_eq!(
        cmd_now(&sources, &local_moment(), &utc_moment()),
        printed(&[
            "Current local time is: 2024-10-30 11:08:42 -05:00",
            "Time in Europe/London: 2024-10-30 16:08:42 GMT",
            "Time in Asia/Chongqing: 2024-10-31 00:08:42 CST",
            "Time in Asia/Kabul: 2024-10-30 20:38:42 +0430",
        ])
    );
}

#[test]
fn now_with_no_zones_prints_the_local_time_alone() {
    assert_eq!(
        cmd_now(&holding(&[]), &local_moment(), &utc_moment()),
        printed(&["Current local time is: 2024-10-30 11:08:42 -05:00"])
    );
}

#[test]
fn now_prints_nothing_when_a_zone_is_invalid() {
    let sources = holding(&["Europe/London", "Not/AZone", "Asia/Kabul"]);
    assert_eq!(cmd_now(&sources, &local_moment(), &utc_moment()), failed(&[NOT_A_ZONE]));
}

#[test]
fn now_fails_when_the_settings_do() {
    assert_eq!(cmd_now(&nothing(), &local_moment(), &utc_moment()), failed(&[NOT_FOUND]));
}

#[test]
fn now_for_loaded_settings() {
    let settings = Settings { timezones: lines(&["Asia/Kabul"]) };
    assert_eq!(
        report_now(&settings, &Timestamp::Utc(utc_moment()), &utc_moment()),
        printed(&[
            "Current local time is: 2024-10-30 16:08:42 UTC",
            "Time in Asia/Kabul: 2024-10-30 20:38:42 +0430",
        ])
    );
}

#[test]
fn convert_shows_the_value_in_each_zone() {
    let sources = holding(&["Europe/London", "America/Chicago", "Asia/Kabul"]);
    assert_eq!(
        cmd_convert(&sources, "2024-10-30 16:08:42"),
        printed(&[
            "Time in Europe/London: 2024-10-30 16:08:42 GMT",
            "Time in America/Chicago: 2024-10-30 11:08:42 CDT",
            "Time in Asia/Kabul: 2024-10-30 20:38:42 +0430",
        ])
    );
}

#[test]
fn convert_rejects_what_is_no_timestamp() {
    let sources = holding(&["Europe/London"]);
    assert_eq!(cmd_convert(&sources, "teatime"), failed(&["input contains invalid characters"]));
    assert_eq!(cmd_convert(&sources, "2024-10-30"), failed(&["premature end of input"]));
    assert_eq!(cmd_convert(&sources, "2024-02-30 10:00:00"), failed(&["input is out of range"]));
    assert_eq!(
        cmd_convert(&sources, "2024-10-30 16:08:42 UTC"),
        failed(&["trailing input"])
    );
}

#[test]
fn convert_tells_of_the_timestamp_before_the_zones() {
    let sources = holding(&["Not/AZone"]);
    assert_eq!(cmd_convert(&sources, "teatime"), failed(&["input contains invalid characters"]));
    assert_eq!(cmd_convert(&sources, "2024-10-30 16:08:42"), failed(&[NOT_A_ZONE]));
    assert_eq!(cmd_convert(&nothing(), "teatime"), failed(&[NOT_FOUND]));
}

#[test]
fn convert_for_loaded_settings() {
    let settings = Settings { timezones: lines(&["Asia/Chongqing"]) };
    assert_eq!(
        report_convert(&settings, "2024-10-30 16:08:42"),
        printed(&["Time in Asia/Chongqing: 2024-10-31 00:08:42 CST"])
    );
}

#[test]
fn convert_into_a_repeated_hour_shows_the_offset_in_force() {
    let settings = Settings { timezones: lines(&["Asia/Kabul", "Europe/London"]) };
    assert_eq!(
        report_convert(&settings, "2024-10-27 00:30:00"),
        printed(&[
            "Time in Asia/Kabul: 2024-10-27 05:00:00 +0430",
            "Time in Europe/London: 2024-10-27 01:30:00 BST",
        ])
    );
    assert_eq!(
        report_convert(&settings, "2024-10-27 01:30:00"),
        printed(&[
            "Time in Asia/Kabul: 2024-10-27 06:00:00 +0430",
            "Time in Europe/London: 2024-10-27 01:30:00 GMT",
        ])
    );
}

#[test]
fn convert_beyond_the_calendar_fails() {
    let settings = Settings { timezones: lines(&["Europe/London", "Asia/Kabul"]) };
    assert_eq!(
        report_convert(&settings, "+262142-12-31 23:00:00"),
        failed(&["the local time in 'Asia/Kabul' is out of range"])
    );
}

#[test]
fn as_prints_the_time_in_the_zone() {
    assert_eq!(
        cmd_as("Asia/Kabul", &utc_moment()),
        printed(&["2024-10-30 20:38:42 +0430"])
    );
    assert_eq!(
        cmd_as("Europe/London", &utc_moment()),
        printed(&["2024-10-30 16:08:42 GMT"])
    );
}

#[test]
fn as_rejects_an_invalid_zone() {
    assert_eq!(
        cmd_as("Not/AZone", &utc_moment()),
        failed(&["invalid timezone: failed to parse timezone"])
    );
}

#[test]
fn as_in_a_repeated_hour_shows_the_offset_in_force() {
    let moment = CivilTime::new(2024, 10, 27, 1, 30, 0).unwrap();
    assert_eq!(cmd_as("Europe/London", &moment), printed(&["2024-10-27 01:30:00 GMT"]));
    let earlier = CivilTime::new(2024, 10, 27, 0, 30, 0).unwrap();
    assert_eq!(cmd_as("Europe/London", &earlier), printed(&["2024-10-27 01:30:00 BST"]));
}

#[test]
fn as_beyond_the_calendar_fails() {
    let moment = CivilTime::new(262_142, 12, 31, 23, 0, 0).unwrap();
    assert_eq!(
        cmd_as("Asia/Kabul", &moment),
        failed(&["the local time in 'Asia/Kabul' is out of range"])
    );
}

#[test]
fn now_in_a_repeated_hour_shows_every_zone() {
    let moment = CivilTime::new(2024, 10, 27, 0, 30, 0).unwrap();
    assert_eq!(
        cmd_now(&holding(&["Europe/London", "Europe/Paris", "Europe/London"]), &Timestamp::Utc(moment), &moment),
        printed(&[
            "Current local time is: 2024-10-27 00:30:00 UTC",
            "Time in Europe/London: 2024-10-27 01:30:00 BST",
            "Time in Europe/Paris: 2024-10-27 02:30:00 CEST",
            "Time in Europe/London: 2024-10-27 01:30:00 BST",
        ])
    );
}

#[test]
fn validate_says_that_the_config_is_valid() {
    assert_eq!(
        cmd_validate(&holding(&["Europe/London", "America/Chicago", "Asia/Kabul"])),
        printed(&["config is valid"])
    );
    assert_eq!(cmd_validate(&holding(&[])), printed(&["config is valid"]));
}

#[test]
fn validate_says_what_is_invalid() {
    assert_eq!(
        cmd_validate(&holding(&["Europe/London", "Not/AZone"])),
        failed(&["config is invalid!", NOT_A_ZONE])
    );
    let settings = Settings { timezones: lines(&["Not/AZone"]) };
    assert_eq!(report_validate(&settings), failed(&["config is invalid!", NOT_A_ZONE]));
}

#[test]
fn validate_fails_when_the_settings_do() {
    assert_eq!(cmd_validate(&nothing()), failed(&[NOT_FOUND]));
    let broken = vec![Source {
        name: "timez".to_string(),
        required: true,
        content: Content::Malformed("not a table".to_string()),
    }];
    assert_eq!(cmd_validate(&broken), failed(&["not a table"]));
}

#[test]
fn settings_with_an_invalid_name_are_rejected_before_any_zone_is_used() {
    let settings = Settings { timezones: lines(&["Asia/Kabul", "Mars/Olympus", "Not/AZone"]) };
    assert_eq!(
        lines_for_settings(&settings, &utc_moment()),
        Err(TimezError::InvalidTimezone {
            name: "Mars/Olympus".to_string(),
            message: "failed to parse timezone".to_string(),
        })
    );
    // Kabul has no time at the far end of the calendar; the invalid name
    // still comes first.
    let last = CivilTime::new(262_142, 12, 31, 23, 0, 0).unwrap();
    let settings = Settings { timezones: lines(&["Asia/Kabul", "Not/AZone"]) };
    assert_eq!(
        lines_for_settings(&settings, &last),
        Err(TimezError::InvalidTimezone {
            name: "Not/AZone".to_string(),
            message: "failed to parse timezone".to_string(),
        })
    );
    assert_eq!(report_convert(&settings, "+262142-12-31 23:00:00"), failed(&[NOT_A_ZONE]));
}

#[test]
fn lines_for_settings_are_one_for_each_name_in_order() {
    let settings = Settings { timezones: lines(&["Asia/Kabul", "Europe/London", "Asia/Kabul"]) };
    assert_eq!(
        lines_for_settings(&settings, &utc_moment()),
        Ok(lines(&[
            "Time in Asia/Kabul: 2024-10-30 20:38:42 +0430",
            "Time in Europe/London: 2024-10-30 16:08:42 GMT",
            "Time in Asia/Kabul: 2024-10-30 20:38:42 +0430",
        ]))
    );
    assert_eq!(lines_for_settings(&Settings { timezones: Vec::new() }, &utc_moment()), Ok(Vec::new()));
}

#[test]
fn lines_for_zones_stop_at_the_first_zone_without_a_line() {
    let zones = vec![
        Zone::parse("Asia/Kabul").unwrap(),
        Zone::parse("Europe/London").unwrap(),
        Zone::parse("Europe/Paris").unwrap(),
    ];
    assert_eq!(
        lines_for_zones(&zones, &utc_moment()),
        Ok(lines(&[
            "Time in Asia/Kabul: 2024-10-30 20:38:42 +0430",
            "Time in Europe/London: 2024-10-30 16:08:42 GMT",
            "Time in Europe/Paris: 2024-10-30 17:08:42 CET",
        ]))
    );
    // At the far end of the calendar Kabul and Paris are past it.
    let last = CivilTime::new(262_142, 12, 31, 23, 30, 0).unwrap();
    assert_eq!(
        lines_for_zones(&zones, &last),
        Err(TimezError::LocalTimeOutOfRange { zone: "Asia/Kabul".to_string() })
    );
    let west_first = vec![Zone::parse("Europe/London").unwrap(), Zone::parse("Europe/Paris").unwrap()];
    assert_eq!(
        lines_for_zones(&west_first, &last),
        Err(TimezError::LocalTimeOutOfRange { zone: "Europe/Paris".to_string() })
    );
}

#[test]
fn outcomes_are_built_as_they_read() {
    assert_eq!(succeed(lines(&["a", "b"])), printed(&["a", "b"]));
    assert_eq!(fail(lines(&["c"])), failed(&["c"]));
    assert_eq!(
        fail_with(&TimezError::ConfigShapeError { message: "odd".to_string() }),
        failed(&["odd"])
    );
}
