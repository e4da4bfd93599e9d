//! What each command asks of the device: the address of its record, how the
//! command runs, and the lines that report a failed fetch or log a response.

use crate::command::Command;
use vstd::prelude::*;

verus! {

/// The address of the record of `endpoint` on the device at `addr`.
pub open spec fn url_text(addr: Seq<char>, endpoint: Seq<char>) -> Seq<char> {
    "http://"@ + addr + "/api/1/"@ + endpoint
}

/// What the record of `command` is called in a message.
pub open spec fn subject_text(command: Command) -> Seq<char> {
    match command {
        Command::Lifetime => "lifetime stats"@,
        Command::Version => "version"@,
        Command::Vitals => "vitals"@,
        Command::WifiStatus => "wifi status"@,
    }
}

/// The line that reports that the record of `command` could not be fetched or
/// decoded, with the text of the error.
pub open spec fn fetch_error_text(command: Command, error: Seq<char>) -> Seq<char> {
    "Error fetching "@ + subject_text(command) + ": "@ + error
}

/// The line that logs the response `body` to the request for `command`.
pub open spec fn log_text(command: Command, body: Seq<char>) -> Seq<char> {
    command.name_text() + ": "@ + body
}

/// How a command runs.
#[derive(Clone, Copy, Debug, PartialEq, Eq, Structural)]
pub enum Run {
    /// Fetch the record once and print its report.
    Once,
    /// Show the record live until an exit key is pressed.
    Live,
}

/// How `command` runs when the live view was asked for or not. Only the
/// vitals have a live view; every other command runs once either way.
pub open spec fn run_of(command: Command, live: bool) -> Run {
    if live && command == Command::Vitals {
        Run::Live
    } else {
        Run::Once
    }
}

/// The address that the record of `command` is fetched from on the device at
/// `addr`, a host name or IP address.
pub fn endpoint_url(addr: &str, command: Command) -> (url: String)
    ensures
        url@ == url_text(addr@, command.name_text()),
{
    let mut url = String::from_str("http://");
    url.append(addr);
    url.append("/api/1/");
    url.append(command.name());
    url
}

/// The line that reports that the record of `command` could not be fetched or
/// decoded; `error` is the text of the error.
pub fn fetch_error_line(command: Command, error: &str) -> (line: String)
    ensures
        line@ == fetch_error_text(command, error@),
{
    let mut line = String::from_str("Error fetching ");
    line.append(
        match command {
            Command::Lifetime => "lifetime stats",
            Command::Version => "version",
            Command::Vitals => "vitals",
            Command::WifiStatus => "wifi status",
        },
    );
    line.append(": ");
    line.append(error);
    line
}

/// The line that logs the response `body` to the request for `command`: the
/// command's name, a colon, and the response as it came.
pub fn log_line(command: Command, body: &str) -> (line: String)
    ensures
        line@ == log_text(command, body@),
{
    let mut line = String::from_str(command.name());
    line.append(": ");
    line.append(body);
    line
}

/// How `command` runs when the live view was asked for (`live`) or not.
pub fn plan(command: Command, live: bool) -> (run: Run)
    ensures
        run == run_of(command, live),
{
    match command {
        Command::Vitals => if live {
            Run::Live
        } else {
            Run::Once
        },
        _ => Run::Once,
    }
}

} // verus!
