//! The debounced button-press classifier.
//!
//! The protocol is level-based: a press cycle first waits for the
//! input to be idle, trusts that observation only after a debounce
//! delay, waits for the active level, debounces again, and then races
//! "wait for release" against the long-press timeout. Release first
//! means a short press; timeout first means a long press.
//!
//! The waiting itself happens outside this crate (it needs the input
//! pin and timers); the protocol is this state machine, stepped with
//! one [`ButtonEvent`] per completed wait. A press already in
//! progress when a cycle begins is not specially detected: the cycle
//! first requires observing idle, so presses issued faster than one
//! full cycle can be missed. That is a documented limitation of the
//! protocol, kept as designed.

use vstd::prelude::*;

verus! {

/// Ticks the raw level must hold before it is trusted.
pub const DEBOUNCE_DELAY: u64 = 50;

/// A press held longer than this many ticks counts as long.
pub const LONG_PRESS: u64 = 1000;

/// Classification of one completed button-press cycle.
#[derive(Clone, Copy, Debug, Eq, Hash, Ord, PartialEq, PartialOrd, Structural)]
pub enum PressDuration {
    Short,
    Long,
}

/// Where in the press cycle the classifier stands.
#[derive(Clone, Copy, Debug, PartialEq, Eq, Structural)]
pub enum PressPhase {
    /// Waiting for the input to reach its idle level.
    AwaitIdle,
    /// Idle observed; waiting out the debounce delay.
    SettleIdle,
    /// Waiting for the input to reach its active (pressed) level.
    AwaitPress,
    /// Press observed; waiting out the debounce delay.
    SettlePress,
    /// Racing "wait for release" against the long-press timeout.
    AwaitRelease,
}

/// The wait that completed, reported by the task driving the pin.
#[derive(Clone, Copy, Debug, PartialEq, Eq, Structural)]
pub enum ButtonEvent {
    /// The input reached its idle level.
    WentIdle,
    /// The input reached its active level.
    WentActive,
    /// The debounce delay elapsed.
    DebounceElapsed,
    /// The input released before the long-press timeout fired.
    Released,
    /// The long-press timeout fired before the input released.
    LongPressTimeout,
}

/// The wait the driving task must perform next in a given phase.
#[derive(Clone, Copy, Debug, PartialEq, Eq, Structural)]
pub enum ButtonAction {
    /// Wait for the idle level.
    WatchIdle,
    /// Sleep for [`DEBOUNCE_DELAY`] ticks.
    Settle,
    /// Wait for the active level.
    WatchPress,
    /// Race release against a [`LONG_PRESS`] timeout.
    RaceReleaseOrTimeout,
}

/// The transition table of the press cycle: the next phase, and the
/// classification once the race at the end of the cycle resolves. An
/// event that the phase is not waiting for changes nothing.
pub open spec fn press_step_spec(phase: PressPhase, event: ButtonEvent) -> (
    PressPhase,
    Option<PressDuration>,
) {
    match (phase, event) {
        (PressPhase::AwaitIdle, ButtonEvent::WentIdle) => (PressPhase::SettleIdle, None),
        (PressPhase::SettleIdle, ButtonEvent::DebounceElapsed) => (PressPhase::AwaitPress, None),
        (PressPhase::AwaitPress, ButtonEvent::WentActive) => (PressPhase::SettlePress, None),
        (PressPhase::SettlePress, ButtonEvent::DebounceElapsed) => (
            PressPhase::AwaitRelease,
            None,
        ),
        (PressPhase::AwaitRelease, ButtonEvent::Released) => (
            PressPhase::AwaitIdle,
            Some(PressDuration::Short),
        ),
        (PressPhase::AwaitRelease, ButtonEvent::LongPressTimeout) => (
            PressPhase::AwaitIdle,
            Some(PressDuration::Long),
        ),
        _ => (phase, None),
    }
}

/// Advances the press cycle by one completed wait. Returns the next
/// phase and, when the final race resolved, the press classification
/// (release first is short, timeout first is long).
pub fn press_step(phase: PressPhase, event: ButtonEvent) -> (r: (
    PressPhase,
    Option<PressDuration>,
))
    ensures
        r == press_step_spec(phase, event),
{
    match (phase, event) {
        (PressPhase::AwaitIdle, ButtonEvent::WentIdle) => (PressPhase::SettleIdle, None),
        (PressPhase::SettleIdle, ButtonEvent::DebounceElapsed) => (PressPhase::AwaitPress, None),
        (PressPhase::AwaitPress, ButtonEvent::WentActive) => (PressPhase::SettlePress, None),
        (PressPhase::SettlePress, ButtonEvent::DebounceElapsed) => (
            PressPhase::AwaitRelease,
            None,
        ),
        (PressPhase::AwaitRelease, ButtonEvent::Released) => (
            PressPhase::AwaitIdle,
            Some(PressDuration::Short),
        ),
        (PressPhase::AwaitRelease, ButtonEvent::LongPressTimeout) => (
            PressPhase::AwaitIdle,
            Some(PressDuration::Long),
        ),
        _ => (phase, None),
    }
}

/// The wait to perform in each phase of the cycle.
pub fn phase_action(phase: PressPhase) -> (a: ButtonAction)
    ensures
        a == match phase {
            PressPhase::AwaitIdle => ButtonAction::WatchIdle,
            PressPhase::SettleIdle => ButtonAction::Settle,
            PressPhase::AwaitPress => ButtonAction::WatchPress,
            PressPhase::SettlePress => ButtonAction::Settle,
            PressPhase::AwaitRelease => ButtonAction::RaceReleaseOrTimeout,
        },
{
    match phase {
        PressPhase::AwaitIdle => ButtonAction::WatchIdle,
        PressPhase::SettleIdle => ButtonAction::Settle,
        PressPhase::AwaitPress => ButtonAction::WatchPress,
        PressPhase::SettlePress => ButtonAction::Settle,
        PressPhase::AwaitRelease => ButtonAction::RaceReleaseOrTimeout,
    }
}

/// Which operand of the final race completes first when the press is
/// released `held` ticks after the debounce settled. On a tie the
/// race favours its first operand, the release.
pub fn race_outcome(held: u64) -> (e: ButtonEvent)
    ensures
        e == (if held <= LONG_PRESS {
            ButtonEvent::Released
        } else {
            ButtonEvent::LongPressTimeout
        }),
{
    if held <= LONG_PRESS {
        ButtonEvent::Released
    } else {
        ButtonEvent::LongPressTimeout
    }
}

} // verus!
