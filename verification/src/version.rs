//! The firmware and hardware identification of a wall connector.

use crate::text::labelled;
use vstd::prelude::*;

verus! {

/// What the device reports of its firmware and hardware.
#[derive(Debug, PartialEq, Eq)]
pub struct Version {
    pub firmware_version: String,
    pub git_branch: String,
    pub part_number: String,
    pub serial_number: String,
    /// The web service release, where the firmware reports one.
    pub web_service: Option<String>,
}

/// The report on `version`: a heading, then one labelled line per field with
/// the field's text as it was reported. The web service line is there only
/// when the device reported one.
pub open spec fn version_report(version: Version) -> Seq<Seq<char>> {
    let lines = seq![
        "Tesla Wall Connector Version Info:"@,
        "  Firmware Version: "@ + version.firmware_version@,
        "  Git Branch:       "@ + version.git_branch@,
        "  Part Number:      "@ + version.part_number@,
        "  Serial Number:    "@ + version.serial_number@,
    ];
    match version.web_service {
        Some(release) => lines.push("  Web Service:      "@ + release@),
        None => lines,
    }
}

/// Renders the report on `version`, one string per line.
pub fn render_version(version: &Version) -> (lines: Vec<String>)
    ensures
        lines.deep_view() == version_report(*version),
{
    let mut lines: Vec<String> = Vec::new();
    lines.push(String::from_str("Tesla Wall Connector Version Info:"));
    lines.push(labelled("  Firmware Version: ", version.firmware_version.as_str()));
    lines.push(labelled("  Git Branch:       ", version.git_branch.as_str()));
    lines.push(labelled("  Part Number:      ", version.part_number.as_str()));
    lines.push(labelled("  Serial Number:    ", version.serial_number.as_str()));
    match &version.web_service {
        Some(release) => {
            lines.push(labelled("  Web Service:      ", release.as_str()));
        },
        None => {},
    }
    assert(lines.deep_view() =~= version_report(*version));
    lines
}

} // verus!
