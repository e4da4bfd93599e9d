use tesla_wallcon_monitor::command::Command;
use tesla_wallcon_monitor::endpoint::{endpoint_url, fetch_error_line, log_line, plan, Run};

#[test]
fn the_address_of_each_record() {
    assert_eq!(endpoint_url("192.168.1.50", Command::Version), "http://192.168.1.50/api/1/version");
    assert_eq!(
        endpoint_url("192.168.1.50", Command::WifiStatus),
        "http://192.168.1.50/api/1/wifi_status"
    );
    assert_eq!(endpoint_url("wallbox.local", Command::Lifetime), "http://wallbox.local/api/1/lifetime");
    assert_eq!(endpoint_url("wallbox.local", Command::Vitals), "http://wallbox.local/api/1/vitals");
}

#[test]
fn the_address_takes_the_host_as_it_is() {
    assert_eq!(endpoint_url("", Command::Version), "http:///api/1/version");
    assert_eq!(endpoint_url("10.0.0.7:8080", Command::Vitals), "http://10.0.0.7:8080/api/1/vitals");
}

#[test]
fn the_line_for_a_failed_fetch_names_the_record() {
    assert_eq!(fetch_error_line(Command::Version, "timed out"), "Error fetching version: timed out");
    assert_eq!(
        fetch_error_line(Command::WifiStatus, "timed out"),
        "Error fetching wifi status: timed out"
    );
    assert_eq!(
        fetch_error_line(Command::Lifetime, "expected value at line 1 column 1"),
        "Error fetching lifetime stats: expected value at line 1 column 1"
    );
    assert_eq!(fetch_error_line(Command::Vitals, ""), "Error fetching vitals: ");
}

#[test]
fn the_log_line_holds_the_response_as_it_came() {
    assert_eq!(
        log_line(Command::Version, "{\"firmware_version\":\"1\"}"),
        "version: {\"firmware_version\":\"1\"}"
    );
    assert_eq!(log_line(Command::WifiStatus, ""), "wifi_status: ");
}

#[test]
fn only_the_vitals_run_live() {
    assert_eq!(plan(Command::Vitals, true), Run::Live);
    assert_eq!(plan(Command::Vitals, false), Run::Once);
    for command in [Command::Lifetime, Command::Version, Command::WifiStatus] {
        assert_eq!(plan(command, true), Run::Once);
        assert_eq!(plan(command, false), Run::Once);
    }
}
