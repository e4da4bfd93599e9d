//! Rendering of second counts as days, hours and minutes.

use crate::text::{decimal, push_decimal};
use vstd::prelude::*;

verus! {

/// Whole days in `seconds`.
pub open spec fn days_of(seconds: nat) -> nat {
    seconds / 86400
}

/// Whole hours in `seconds` beyond the last whole day.
pub open spec fn hours_of(seconds: nat) -> nat {
    (seconds % 86400) / 3600
}

/// Whole minutes in `seconds` beyond the last whole hour.
pub open spec fn minutes_of(seconds: nat) -> nat {
    (seconds % 3600) / 60
}

/// The parts of a duration are in range and leave out less than a minute:
/// under 24 hours, under 60 minutes, and together with the seconds beyond
/// the last whole minute they make up `seconds`.
pub proof fn duration_parts_make_up(seconds: nat)
    ensures
        hours_of(seconds) < 24,
        minutes_of(seconds) < 60,
        days_of(seconds) * 86400 + hours_of(seconds) * 3600 + minutes_of(seconds) * 60 + seconds
            % 60 == seconds,
{
}

/// A duration as text: `<d>d <h>h <m>m`, without the days when there are
/// none, and without the hours too when there is less than one hour. Seconds
/// beyond the last whole minute are dropped.
pub open spec fn duration_text(seconds: nat) -> Seq<char> {
    let minutes = decimal(minutes_of(seconds)) + seq!['m'];
    let hours = decimal(hours_of(seconds)) + seq!['h', ' '];
    let days = decimal(days_of(seconds)) + seq!['d', ' '];
    if days_of(seconds) > 0 {
        days + hours + minutes
    } else if hours_of(seconds) > 0 {
        hours + minutes
    } else {
        minutes
    }
}

/// Appends the duration of `seconds` to `out`.
pub fn push_duration(out: &mut String, seconds: u64)
    ensures
        final(out)@ == old(out)@ + duration_text(seconds as nat),
{
    proof {
        reveal_strlit("d ");
        reveal_strlit("h ");
        reveal_strlit("m");
    }
    let days: u64 = seconds / 86400;
    let hours: u64 = (seconds % 86400) / 3600;
    let minutes: u64 = (seconds % 3600) / 60;
    if days > 0 {
        push_decimal(out, days);
        out.append("d ");
    }
    if days > 0 || hours > 0 {
        push_decimal(out, hours);
        out.append("h ");
    }
    push_decimal(out, minutes);
    out.append("m");
    assert(out@ =~= old(out)@ + duration_text(seconds as nat));
}

/// Renders a duration given in seconds as days, hours and minutes.
pub fn format_duration(seconds: u64) -> (text: String)
    ensures
        text@ == duration_text(seconds as nat),
{
    let mut text = String::new();
    push_duration(&mut text, seconds);
    assert(text@ =~= duration_text(seconds as nat));
    text
}

/// The line that shows the duration of `seconds` behind `label`.
pub fn duration_line(label: &str, seconds: u64) -> (line: String)
    ensures
        line@ == label@ + duration_text(seconds as nat),
{
    let mut line = String::from_str(label);
    push_duration(&mut line, seconds);
    line
}

} // verus!
