//! The counters that a wall connector keeps over its whole life.

use crate::duration::{duration_line, duration_text};
use crate::text::{count_line, decimal, reading_line};
use vstd::prelude::*;

verus! {

/// What the device reports of its life so far. The two measurements that the
/// device gives as fractions are held as the text to show.
#[derive(Debug, PartialEq, Eq)]
pub struct Lifetime {
    pub contactor_cycles: u32,
    pub contactor_cycles_loaded: u32,
    pub alert_count: u32,
    pub thermal_foldbacks: u32,
    /// The average temperature at start-up in degrees Celsius, written with
    /// one decimal.
    pub avg_startup_temp: String,
    pub charge_starts: u32,
    /// The energy delivered in kilowatt-hours, written with two decimals.
    pub energy_kwh: String,
    pub connector_cycles: u32,
    pub uptime_s: u64,
    pub charging_time_s: u64,
}

/// The report on `lifetime`: a heading, then one labelled line per field, the
/// two times as days, hours and minutes.
pub open spec fn lifetime_report(lifetime: Lifetime) -> Seq<Seq<char>> {
    seq![
        "Tesla Wall Connector Lifetime Stats:"@,
        "  Charge Starts:      "@ + decimal(lifetime.charge_starts as nat),
        "  Energy Delivered:   "@ + lifetime.energy_kwh@ + " kWh"@,
        "  Charging Time:      "@ + duration_text(lifetime.charging_time_s as nat),
        "  Uptime:             "@ + duration_text(lifetime.uptime_s as nat),
        "  Contactor Cycles:   "@ + decimal(lifetime.contactor_cycles as nat),
        "  Loaded Cycles:      "@ + decimal(lifetime.contactor_cycles_loaded as nat),
        "  Connector Cycles:   "@ + decimal(lifetime.connector_cycles as nat),
        "  Thermal Foldbacks:  "@ + decimal(lifetime.thermal_foldbacks as nat),
        "  Alert Count:        "@ + decimal(lifetime.alert_count as nat),
        "  Avg Startup Temp:   "@ + lifetime.avg_startup_temp@ + "°C"@,
    ]
}

/// Renders the report on `lifetime`, one string per line.
pub fn render_lifetime(lifetime: &Lifetime) -> (lines: Vec<String>)
    ensures
        lines.deep_view() == lifetime_report(*lifetime),
{
    proof {
        reveal_strlit("");
    }
    let mut lines: Vec<String> = Vec::new();
    lines.push(String::from_str("Tesla Wall Connector Lifetime Stats:"));
    lines.push(count_line("  Charge Starts:      ", lifetime.charge_starts as u64, ""));
    lines.push(reading_line("  Energy Delivered:   ", lifetime.energy_kwh.as_str(), " kWh"));
    lines.push(duration_line("  Charging Time:      ", lifetime.charging_time_s));
    lines.push(duration_line("  Uptime:             ", lifetime.uptime_s));
    lines.push(count_line("  Contactor Cycles:   ", lifetime.contactor_cycles as u64, ""));
    lines.push(count_line("  Loaded Cycles:      ", lifetime.contactor_cycles_loaded as u64, ""));
    lines.push(count_line("  Connector Cycles:   ", lifetime.connector_cycles as u64, ""));
    lines.push(count_line("  Thermal Foldbacks:  ", lifetime.thermal_foldbacks as u64, ""));
    lines.push(count_line("  Alert Count:        ", lifetime.alert_count as u64, ""));
    lines.push(reading_line("  Avg Startup Temp:   ", lifetime.avg_startup_temp.as_str(), "°C"));
    assert(lines.deep_view() =~= lifetime_report(*lifetime));
    lines
}

} // verus!
