//! The live view of the vitals as a state machine: fetch, draw, wait for a
//! key or for the delay to pass, and fetch again, until an exit key ends it.
//!
//! The machine decides; its driver acts. The driver enters the terminal's raw
//! mode, performs [`RefreshAction::Fetch`], and from then on hands each
//! outcome to [`step`] and performs the action that comes back.

use crate::text::{decimal, labelled, push_decimal};
use crate::vitals::{render_vitals, vitals_report, Vitals};
use vstd::prelude::*;

verus! {

/// A key press, as far as the live view tells keys apart.
#[derive(Clone, Copy, Debug, PartialEq, Eq, Structural)]
pub enum Key {
    Escape,
    CtrlC,
    Other,
}

/// Where the live view stands.
#[derive(Clone, Copy, Debug, PartialEq, Eq, Structural)]
pub enum RefreshState {
    /// The vitals are being fetched and decoded.
    Fetching,
    /// A frame is being drawn.
    Rendering,
    /// The driver waits for a key, for the delay at most.
    Waiting,
    /// The live view has ended.
    Terminated,
}

/// What the driver reports back.
#[derive(Debug, PartialEq, Eq)]
pub enum RefreshEvent {
    /// The fetch ended: with the vitals, or with the text of the error.
    Fetched(Result<Vitals, String>),
    /// The frame is on the screen.
    Drawn,
    /// A key arrived during the wait.
    KeyPressed(Key),
    /// The delay passed without a key.
    DelayElapsed,
}

/// What the driver is to do next.
#[derive(Debug, PartialEq, Eq)]
pub enum RefreshAction {
    /// Fetch and decode the vitals.
    Fetch,
    /// Clear the screen and write these lines from the top left.
    Draw(Vec<String>),
    /// Wait for a key for this many seconds at most.
    Wait(u64),
    /// Leave raw mode, clear the screen and return to the caller.
    Restore,
    /// Nothing: the event was not one that the state awaits.
    Nothing,
}

/// Whether `key` ends the live view.
pub open spec fn is_exit_key(key: Key) -> bool {
    key == Key::Escape || key == Key::CtrlC
}

/// The line that tells the delay between two frames and how to leave.
pub open spec fn hint_text(delay: nat) -> Seq<char> {
    "Refreshing every "@ + decimal(delay) + "s. Press Esc or Ctrl+C to exit."@
}

/// The frame for a fetch that ended in `outcome`: the report on the vitals,
/// or the error in its place, then an empty line and the hint.
pub open spec fn frame(outcome: Result<Vitals, String>, delay: nat) -> Seq<Seq<char>> {
    let body = match outcome {
        Ok(vitals) => vitals_report(vitals),
        Err(error) => seq!["Error fetching vitals: "@ + error@],
    };
    body.push(Seq::empty()).push(hint_text(delay))
}

/// The state that follows `state` on `event`. An event that the state does
/// not await leaves it as it is.
pub open spec fn next_state(state: RefreshState, event: RefreshEvent) -> RefreshState {
    match (state, event) {
        (RefreshState::Fetching, RefreshEvent::Fetched(_)) => RefreshState::Rendering,
        (RefreshState::Rendering, RefreshEvent::Drawn) => RefreshState::Waiting,
        (RefreshState::Waiting, RefreshEvent::KeyPressed(key)) => if is_exit_key(key) {
            RefreshState::Terminated
        } else {
            RefreshState::Fetching
        },
        (RefreshState::Waiting, RefreshEvent::DelayElapsed) => RefreshState::Fetching,
        _ => state,
    }
}

/// Whether `action` is what the driver is to do when `event` arrives in
/// `state`, with `delay` seconds between frames.
pub open spec fn is_next_action(
    state: RefreshState,
    event: RefreshEvent,
    delay: u64,
    action: RefreshAction,
) -> bool {
    match (state, event) {
        (RefreshState::Fetching, RefreshEvent::Fetched(outcome)) => {
            &&& action matches RefreshAction::Draw(lines)
            &&& lines.deep_view() == frame(outcome, delay as nat)
        },
        (RefreshState::Rendering, RefreshEvent::Drawn) => action == RefreshAction::Wait(delay),
        (RefreshState::Waiting, RefreshEvent::KeyPressed(key)) => if is_exit_key(key) {
            action == RefreshAction::Restore
        } else {
            action == RefreshAction::Fetch
        },
        (RefreshState::Waiting, RefreshEvent::DelayElapsed) => action == RefreshAction::Fetch,
        _ => action == RefreshAction::Nothing,
    }
}

/// Renders the frame for a fetch that ended in `outcome`, one string per
/// line.
pub fn render_frame(outcome: &Result<Vitals, String>, delay: u64) -> (lines: Vec<String>)
    ensures
        lines.deep_view() == frame(*outcome, delay as nat),
{
    let mut lines = match outcome {
        Ok(vitals) => render_vitals(vitals),
        Err(error) => {
            let mut lines: Vec<String> = Vec::new();
            lines.push(labelled("Error fetching vitals: ", error.as_str()));
            assert(lines.deep_view() =~= seq!["Error fetching vitals: "@ + error@]);
            lines
        },
    };
    let ghost body = lines.deep_view();
    lines.push(String::new());
    let mut hint = String::from_str("Refreshing every ");
    push_decimal(&mut hint, delay);
    hint.append("s. Press Esc or Ctrl+C to exit.");
    lines.push(hint);
    assert(lines.deep_view() =~= body.push(Seq::empty()).push(hint_text(delay as nat)));
    lines
}

/// The state in which the live view begins, and the driver's first action.
pub fn start() -> (r: (RefreshState, RefreshAction))
    ensures
        r.0 == RefreshState::Fetching,
        r.1 == RefreshAction::Fetch,
{
    (RefreshState::Fetching, RefreshAction::Fetch)
}

/// One transition of the live view: the state after `event` arrived in
/// `state`, and what the driver is to do next, with `delay` seconds between
/// frames.
///
/// A failed fetch is drawn like a successful one and the cycle goes on. Only
/// an exit key during the wait ends the live view, and the action is then
/// [`RefreshAction::Restore`]. Any other key starts the next fetch at once.
pub fn step(state: RefreshState, event: &RefreshEvent, delay: u64) -> (r: (
    RefreshState,
    RefreshAction,
))
    ensures
        r.0 == next_state(state, *event),
        is_next_action(state, *event, delay, r.1),
{
    match state {
        RefreshState::Fetching => match event {
            RefreshEvent::Fetched(outcome) => (
                RefreshState::Rendering,
                RefreshAction::Draw(render_frame(outcome, delay)),
            ),
            _ => (state, RefreshAction::Nothing),
        },
        RefreshState::Rendering => match event {
            RefreshEvent::Drawn => (RefreshState::Waiting, RefreshAction::Wait(delay)),
            _ => (state, RefreshAction::Nothing),
        },
        RefreshState::Waiting => match event {
            RefreshEvent::KeyPressed(Key::Escape) | RefreshEvent::KeyPressed(Key::CtrlC) => (
                RefreshState::Terminated,
                RefreshAction::Restore,
            ),
            RefreshEvent::KeyPressed(Key::Other) | RefreshEvent::DelayElapsed => (
                RefreshState::Fetching,
                RefreshAction::Fetch,
            ),
            _ => (state, RefreshAction::Nothing),
        },
        RefreshState::Terminated => (state, RefreshAction::Nothing),
    }
}

/// Once ended, the live view stays ended and asks nothing more of its
/// driver, whatever is reported to it.
pub proof fn terminated_is_final(event: RefreshEvent, delay: u64, action: RefreshAction)
    requires
        is_next_action(RefreshState::Terminated, event, delay, action),
    ensures
        next_state(RefreshState::Terminated, event) == RefreshState::Terminated,
        action == RefreshAction::Nothing,
{
}

/// The live view ends only on an exit key during the wait, and its driver is
/// then told to restore the terminal.
pub proof fn ends_only_on_exit_key(
    state: RefreshState,
    event: RefreshEvent,
    delay: u64,
    action: RefreshAction,
)
    requires
        state != RefreshState::Terminated,
        next_state(state, event) == RefreshState::Terminated,
        is_next_action(state, event, delay, action),
    ensures
        state == RefreshState::Waiting,
        event matches RefreshEvent::KeyPressed(key) && is_exit_key(key),
        action == RefreshAction::Restore,
{
}

/// A failed fetch does not end the live view: the error is drawn where the
/// vitals would stand, above the hint.
pub proof fn failed_fetch_is_drawn(error: String, delay: u64, action: RefreshAction)
    requires
        is_next_action(RefreshState::Fetching, RefreshEvent::Fetched(Err(error)), delay, action),
    ensures
        next_state(RefreshState::Fetching, RefreshEvent::Fetched(Err(error)))
            == RefreshState::Rendering,
        action matches RefreshAction::Draw(lines) && lines.deep_view() == seq![
            "Error fetching vitals: "@ + error@,
            Seq::empty(),
            hint_text(delay as nat),
        ],
{
}

} // verus!
