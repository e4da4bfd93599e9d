use tesla_wallcon_monitor::duration::{duration_line, format_duration, push_duration};

#[test]
fn a_day_an_hour_and_no_minutes() {
    assert_eq!(format_duration(90000), "1d 1h 0m");
}

#[test]
fn one_hour_and_no_minutes() {
    assert_eq!(format_duration(3600), "1h 0m");
}

#[test]
fn two_minutes() {
    assert_eq!(format_duration(120), "2m");
}

#[test]
fn zero_seconds() {
    assert_eq!(format_duration(0), "0m");
}

#[test]
fn seconds_below_a_minute_are_dropped() {
    assert_eq!(format_duration(59), "0m");
    assert_eq!(format_duration(61), "1m");
    assert_eq!(format_duration(3599), "59m");
}

#[test]
fn last_second_of_a_day() {
    assert_eq!(format_duration(86399), "23h 59m");
}

#[test]
fn a_whole_day_shows_zero_hours_and_minutes() {
    assert_eq!(format_duration(86400), "1d 0h 0m");
}

#[test]
fn days_without_hours_keep_the_hours() {
    assert_eq!(format_duration(2 * 86400 + 5 * 60), "2d 0h 5m");
}

#[test]
fn the_longest_duration() {
    assert_eq!(format_duration(u64::MAX), "213503982334601d 7h 0m");
}

#[test]
fn duration_is_appended_to_what_is_there() {
    let mut out = String::from("up ");
    push_duration(&mut out, 831580);
    assert_eq!(out, "up 9d 14h 59m");
}

#[test]
fn duration_line_puts_the_label_first() {
    assert_eq!(duration_line("  Uptime:             ", 7260), "  Uptime:             2h 1m");
}
