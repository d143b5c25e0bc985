use pitft_async::button::{
    phase_action, press_step, race_outcome, ButtonAction, ButtonEvent, PressDuration, PressPhase,
    DEBOUNCE_DELAY, LONG_PRESS,
};

/// Walks one full press cycle, with the release coming `held` ticks
/// after the debounce settles, and returns the classification.
fn run_press_cycle(held: u64) -> PressDuration {
    let mut phase = PressPhase::AwaitIdle;
    let mut decided: Option<PressDuration> = None;

    let events = [
        ButtonEvent::WentIdle,
        ButtonEvent::DebounceElapsed,
        ButtonEvent::WentActive,
        ButtonEvent::DebounceElapsed,
    ];
    for e in events {
        let (next, d) = press_step(phase, e);
        assert!(d.is_none());
        phase = next;
    }
    assert_eq!(phase, PressPhase::AwaitRelease);
    assert_eq!(phase_action(phase), ButtonAction::RaceReleaseOrTimeout);

    let (next, d) = press_step(phase, race_outcome(held));
    assert_eq!(next, PressPhase::AwaitIdle);
    if let Some(result) = d {
        decided = Some(result);
    }
    decided.expect("the race must classify the press")
}

#[test]
fn press_held_1500ms_is_long() {
    assert_eq!(run_press_cycle(1500), PressDuration::Long);
}

#[test]
fn press_held_200ms_is_short() {
    assert_eq!(run_press_cycle(200), PressDuration::Short);
}

#[test]
fn release_on_the_timeout_tick_is_short() {
    // On a tie the race favours its first operand, the release.
    assert_eq!(run_press_cycle(LONG_PRESS), PressDuration::Short);
    assert_eq!(run_press_cycle(LONG_PRESS + 1), PressDuration::Long);
}

#[test]
fn protocol_constants() {
    assert_eq!(DEBOUNCE_DELAY, 50);
    assert_eq!(LONG_PRESS, 1000);
}

#[test]
fn phases_demand_their_waits() {
    assert_eq!(phase_action(PressPhase::AwaitIdle), ButtonAction::WatchIdle);
    assert_eq!(phase_action(PressPhase::SettleIdle), ButtonAction::Settle);
    assert_eq!(phase_action(PressPhase::AwaitPress), ButtonAction::WatchPress);
    assert_eq!(phase_action(PressPhase::SettlePress), ButtonAction::Settle);
}

#[test]
fn unexpected_events_change_nothing() {
    // A release edge while still waiting for idle is not a press.
    let (next, d) = press_step(PressPhase::AwaitIdle, ButtonEvent::Released);
    assert_eq!(next, PressPhase::AwaitIdle);
    assert!(d.is_none());
    let (next, d) = press_step(PressPhase::SettleIdle, ButtonEvent::WentActive);
    assert_eq!(next, PressPhase::SettleIdle);
    assert!(d.is_none());
}
