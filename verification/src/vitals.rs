//! The live electrical and thermal readings of a wall connector.

use crate::duration::{duration_line, duration_text};
use crate::text::{count_line, decimal, joined, list_line, reading_line, truth_line, truth_text};
use vstd::prelude::*;

verus! {

/// What the device reports of its present state. Measurements that the
/// device gives as fractions are held as the text to show; alerts and reasons
/// are held as the text of each reported value.
#[derive(Debug, PartialEq, Eq)]
pub struct Vitals {
    pub contactor_closed: bool,
    pub vehicle_connected: bool,
    pub session_s: u64,
    pub session_energy_wh: String,
    pub grid_v: String,
    pub grid_hz: String,
    pub current_a_a: String,
    pub current_b_a: String,
    pub current_c_a: String,
    pub current_n_a: String,
    pub voltage_a_v: String,
    pub voltage_b_v: String,
    pub voltage_c_v: String,
    pub relay_coil_v: String,
    pub pcba_temp_c: String,
    pub handle_temp_c: String,
    pub mcu_temp_c: String,
    pub pilot_high_v: String,
    pub pilot_low_v: String,
    pub prox_v: String,
    pub uptime_s: u64,
    pub config_status: u32,
    pub evse_state: u32,
    pub current_alerts: Vec<String>,
    pub evse_not_ready_reasons: Vec<String>,
}

/// The report on `vitals`: a heading, then one labelled line per field, each
/// measurement with its unit, the two times as days, hours and minutes, and
/// the two lists with commas between their items.
pub open spec fn vitals_report(vitals: Vitals) -> Seq<Seq<char>> {
    seq![
        "Tesla Wall Connector Vitals:"@,
        "  Contactor Closed:   "@ + truth_text(vitals.contactor_closed),
        "  Vehicle Connected:  "@ + truth_text(vitals.vehicle_connected),
        "  Session Duration:   "@ + duration_text(vitals.session_s as nat),
        "  Session Energy:     "@ + vitals.session_energy_wh@ + " Wh"@,
        "  Grid Voltage:       "@ + vitals.grid_v@ + " V"@,
        "  Grid Frequency:     "@ + vitals.grid_hz@ + " Hz"@,
        "  Current A:          "@ + vitals.current_a_a@ + " A"@,
        "  Current B:          "@ + vitals.current_b_a@ + " A"@,
        "  Current C:          "@ + vitals.current_c_a@ + " A"@,
        "  Current N:          "@ + vitals.current_n_a@ + " A"@,
        "  Voltage A:          "@ + vitals.voltage_a_v@ + " V"@,
        "  Voltage B:          "@ + vitals.voltage_b_v@ + " V"@,
        "  Voltage C:          "@ + vitals.voltage_c_v@ + " V"@,
        "  Relay Coil:         "@ + vitals.relay_coil_v@ + " V"@,
        "  PCBA Temp:          "@ + vitals.pcba_temp_c@ + "°C"@,
        "  Handle Temp:        "@ + vitals.handle_temp_c@ + "°C"@,
        "  MCU Temp:           "@ + vitals.mcu_temp_c@ + "°C"@,
        "  Pilot High:         "@ + vitals.pilot_high_v@ + " V"@,
        "  Pilot Low:          "@ + vitals.pilot_low_v@ + " V"@,
        "  Proximity:          "@ + vitals.prox_v@ + " V"@,
        "  Uptime:             "@ + duration_text(vitals.uptime_s as nat),
        "  Config Status:      "@ + decimal(vitals.config_status as nat),
        "  EVSE State:         "@ + decimal(vitals.evse_state as nat),
        "  Current Alerts:     "@ + joined(vitals.current_alerts.deep_view(), ", "@),
        "  Not Ready Reasons:  "@ + joined(vitals.evse_not_ready_reasons.deep_view(), ", "@),
    ]
}

/// Renders the report on `vitals`, one string per line.
pub fn render_vitals(vitals: &Vitals) -> (lines: Vec<String>)
    ensures
        lines.deep_view() == vitals_report(*vitals),
{
    proof {
        reveal_strlit("");
    }
    let mut lines: Vec<String> = Vec::new();
    lines.push(String::from_str("Tesla Wall Connector Vitals:"));
    lines.push(truth_line("  Contactor Closed:   ", vitals.contactor_closed));
    lines.push(truth_line("  Vehicle Connected:  ", vitals.vehicle_connected));
    lines.push(duration_line("  Session Duration:   ", vitals.session_s));
    lines.push(reading_line("  Session Energy:     ", vitals.session_energy_wh.as_str(), " Wh"));
    lines.push(reading_line("  Grid Voltage:       ", vitals.grid_v.as_str(), " V"));
    lines.push(reading_line("  Grid Frequency:     ", vitals.grid_hz.as_str(), " Hz"));
    lines.push(reading_line("  Current A:          ", vitals.current_a_a.as_str(), " A"));
    lines.push(reading_line("  Current B:          ", vitals.current_b_a.as_str(), " A"));
    lines.push(reading_line("  Current C:          ", vitals.current_c_a.as_str(), " A"));
    lines.push(reading_line("  Current N:          ", vitals.current_n_a.as_str(), " A"));
    lines.push(reading_line("  Voltage A:          ", vitals.voltage_a_v.as_str(), " V"));
    lines.push(reading_line("  Voltage B:          ", vitals.voltage_b_v.as_str(), " V"));
    lines.push(reading_line("  Voltage C:          ", vitals.voltage_c_v.as_str(), " V"));
    lines.push(reading_line("  Relay Coil:         ", vitals.relay_coil_v.as_str(), " V"));
    lines.push(reading_line("  PCBA Temp:          ", vitals.pcba_temp_c.as_str(), "°C"));
    lines.push(reading_line("  Handle Temp:        ", vitals.handle_temp_c.as_str(), "°C"));
    lines.push(reading_line("  MCU Temp:           ", vitals.mcu_temp_c.as_str(), "°C"));
    lines.push(reading_line("  Pilot High:         ", vitals.pilot_high_v.as_str(), " V"));
    lines.push(reading_line("  Pilot Low:          ", vitals.pilot_low_v.as_str(), " V"));
    lines.push(reading_line("  Proximity:          ", vitals.prox_v.as_str(), " V"));
    lines.push(duration_line("  Uptime:             ", vitals.uptime_s));
    lines.push(count_line("  Config Status:      ", vitals.config_status as u64, ""));
    lines.push(count_line("  EVSE State:         ", vitals.evse_state as u64, ""));
    lines.push(list_line("  Current Alerts:     ", &vitals.current_alerts));
    lines.push(list_line("  Not Ready Reasons:  ", &vitals.evse_not_ready_reasons));
    assert(lines.deep_view() =~= vitals_report(*vitals));
    lines
}

} // verus!
