use longtime::config::{Config, TimezoneConfig, WorkHours};

fn hours(start: &str, end: &str) -> WorkHours {
    WorkHours {
        start: start.to_string(),
        end: end.to_string(),
    }
}

fn entry(name: &str, tz: &str) -> TimezoneConfig {
    TimezoneConfig {
        name: name.to_string(),
        timezone: tz.to_string(),
        work_hours: hours("09:00", "17:00"),
    }
}

#[test]
fn test_work_hours_parsing() {
    let wh = hours("09:00", "17:00");
    assert_eq!(wh.start_time(), Some(9 * 3600));
    assert_eq!(wh.end_time(), Some(17 * 3600));
}

#[test]
fn config_test_work_hours_parsing() {
    let wh = hours("09:00", "17:00");
    assert_eq!(wh.start_time(), Some(9 * 3600));
    assert_eq!(wh.end_time(), Some(17 * 3600));
}

#[test]
fn test_invalid_work_hours() {
    let wh = hours("25:00", "invalid");
    assert_eq!(wh.start_time(), None);
    assert_eq!(wh.end_time(), None);
}

#[test]
fn config_test_invalid_work_hours() {
    let wh = hours("25:00", "invalid");
    assert_eq!(wh.start_time(), None);
    assert_eq!(wh.end_time(), None);
}

#[test]
fn work_hours_parsing_is_strict() {
    assert_eq!(hours("17:30", "23:59").start_time(), Some(17 * 3600 + 30 * 60));
    assert_eq!(hours("17:30", "23:59").end_time(), Some(23 * 3600 + 59 * 60));
    assert_eq!(hours("00:00", "x").start_time(), Some(0));
    assert_eq!(hours("9:00", "x").start_time(), None);
    assert_eq!(hours("09:60", "x").start_time(), None);
    assert_eq!(hours("24:00", "x").start_time(), None);
    assert_eq!(hours(" 09:00", "x").start_time(), None);
    assert_eq!(hours("09:00 ", "x").start_time(), None);
    assert_eq!(hours("09-00", "x").start_time(), None);
    assert_eq!(hours("", "x").start_time(), None);
}

#[test]
fn test_default_config() {
    let config = Config::default();
    assert_eq!(config.timezones.len(), 3);
    assert!(!config.use_12h_format);
    assert_eq!(config.timezones[0].name, "Shanghai");
    assert_eq!(config.timezones[1].name, "London");
    assert_eq!(config.timezones[2].name, "New York");
}

#[test]
fn default_config_zones_and_hours() {
    let config = Config::default();
    assert_eq!(config.timezones[0].timezone, "Asia/Shanghai");
    assert_eq!(config.timezones[1].timezone, "Europe/London");
    assert_eq!(config.timezones[2].timezone, "America/New_York");
    assert_eq!(config.timezones[0].work_hours, hours("09:00", "18:00"));
    assert_eq!(config.timezones[1].work_hours, hours("09:00", "17:30"));
    assert_eq!(config.timezones[2].work_hours, hours("09:00", "17:00"));
}

#[test]
fn add_appends_in_order_and_keeps_duplicates() {
    let mut config = Config::default();
    config.add_timezone(entry("Tokyo", "Asia/Tokyo"));
    config.add_timezone(entry("Tokyo", "Asia/Tokyo"));
    assert_eq!(config.timezones.len(), 5);
    assert_eq!(config.timezones[3], entry("Tokyo", "Asia/Tokyo"));
    assert_eq!(config.timezones[4], entry("Tokyo", "Asia/Tokyo"));
    assert_eq!(config.timezones[0].name, "Shanghai");
}

#[test]
fn update_replaces_only_in_range() {
    let mut config = Config::default();
    config.update_timezone(1, entry("Paris", "Europe/Paris"));
    assert_eq!(config.timezones[1], entry("Paris", "Europe/Paris"));
    assert_eq!(config.timezones.len(), 3);
    let before = config.clone();
    config.update_timezone(3, entry("Oslo", "Europe/Oslo"));
    assert_eq!(config, before);
    config.update_timezone(usize::MAX, entry("Oslo", "Europe/Oslo"));
    assert_eq!(config, before);
}

#[test]
fn remove_only_in_range() {
    let mut config = Config::default();
    let before = config.clone();
    config.remove_timezone(3);
    assert_eq!(config, before);
    config.remove_timezone(0);
    assert_eq!(config.timezones.len(), 2);
    assert_eq!(config.timezones[0].name, "London");
    assert_eq!(config.timezones[1].name, "New York");
}
