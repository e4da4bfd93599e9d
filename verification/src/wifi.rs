//! The state of a wall connector's wireless connection.

use crate::ssid::{decode_ssid, ssid_text, standard_base64_payload};
use crate::text::{labelled, signed_decimal, signed_line, truth_line, truth_text};
use vstd::prelude::*;

verus! {

/// What the device reports of its wireless connection.
#[derive(Debug, PartialEq, Eq)]
pub struct WifiStatus {
    /// The network name, base64-encoded.
    pub wifi_ssid: String,
    pub wifi_signal_strength: i32,
    pub wifi_rssi: i32,
    pub wifi_snr: i32,
    pub wifi_connected: bool,
    pub wifi_infra_ip: String,
    pub internet: bool,
    pub wifi_mac: String,
}

/// The report on `status` with `ssid` as the network name to show: a heading,
/// then one labelled line per field.
pub open spec fn wifi_report(status: WifiStatus, ssid: Seq<char>) -> Seq<Seq<char>> {
    seq![
        "Tesla Wall Connector WiFi Status:"@,
        "  SSID:            "@ + ssid,
        "  Connected:       "@ + truth_text(status.wifi_connected),
        "  Signal Strength: "@ + signed_decimal(status.wifi_signal_strength as int) + "%"@,
        "  RSSI:            "@ + signed_decimal(status.wifi_rssi as int) + " dBm"@,
        "  SNR:             "@ + signed_decimal(status.wifi_snr as int) + " dB"@,
        "  IP Address:      "@ + status.wifi_infra_ip@,
        "  Internet:        "@ + truth_text(status.internet),
        "  MAC Address:     "@ + status.wifi_mac@,
    ]
}

/// Renders the report on `status`, one string per line, with `ssid` as the
/// network name to show.
pub fn wifi_status_lines(status: &WifiStatus, ssid: &str) -> (lines: Vec<String>)
    ensures
        lines.deep_view() == wifi_report(*status, ssid@),
{
    let mut lines: Vec<String> = Vec::new();
    lines.push(String::from_str("Tesla Wall Connector WiFi Status:"));
    lines.push(labelled("  SSID:            ", ssid));
    lines.push(truth_line("  Connected:       ", status.wifi_connected));
    lines.push(signed_line("  Signal Strength: ", status.wifi_signal_strength as i64, "%"));
    lines.push(signed_line("  RSSI:            ", status.wifi_rssi as i64, " dBm"));
    lines.push(signed_line("  SNR:             ", status.wifi_snr as i64, " dB"));
    lines.push(labelled("  IP Address:      ", status.wifi_infra_ip.as_str()));
    lines.push(truth_line("  Internet:        ", status.internet));
    lines.push(labelled("  MAC Address:     ", status.wifi_mac.as_str()));
    assert(lines.deep_view() =~= wifi_report(*status, ssid@));
    lines
}

/// Renders the report on `status`, one string per line. The network name is
/// shown decoded where the reported text is base64 of UTF-8, and as reported
/// otherwise.
pub fn render_wifi_status(status: &WifiStatus) -> (lines: Vec<String>)
    ensures
        lines.deep_view() == wifi_report(
            *status,
            ssid_text(status.wifi_ssid@, standard_base64_payload(status.wifi_ssid@)),
        ),
{
    let ssid = decode_ssid(status.wifi_ssid.as_str());
    wifi_status_lines(status, ssid.as_str())
}

} // verus!
