use embassy_futures::{block_on, poll_once};
use embassy_sync::blocking_mutex::raw::CriticalSectionRawMutex;
use embassy_sync::channel::Channel;
use pitft_async::clock_util::{
    notifier, receive_and_apply, try_adjust_timer, try_set_state, SessionState,
};
use pitft_async::time_util::Time;

#[test]
fn fifth_notice_is_refused_until_a_receive() {
    let mut ch = notifier();
    let mut time = Time::new(0);
    let mut state = SessionState::Working;

    assert!(try_set_state(&mut ch, SessionState::Break));
    assert!(try_set_state(&mut ch, SessionState::Paused));
    assert!(try_adjust_timer(&mut ch, 10));
    assert!(try_adjust_timer(&mut ch, 20));
    // The channel holds 4 notices: a fifth does not fit.
    assert!(!try_set_state(&mut ch, SessionState::Working));

    // One receive makes room again.
    assert!(receive_and_apply(&mut ch, &mut time, &mut state));
    assert!(try_set_state(&mut ch, SessionState::Working));
}

#[test]
fn notices_are_applied_in_send_order() {
    let mut ch = notifier();
    let mut time = Time::new(0);
    let mut state = SessionState::Working;

    assert!(try_set_state(&mut ch, SessionState::Break));
    assert!(try_set_state(&mut ch, SessionState::Paused));
    assert!(try_adjust_timer(&mut ch, 500));

    assert!(receive_and_apply(&mut ch, &mut time, &mut state));
    assert_eq!(state, SessionState::Break);
    assert_eq!(time.offset, 0);

    assert!(receive_and_apply(&mut ch, &mut time, &mut state));
    assert_eq!(state, SessionState::Paused);
    assert_eq!(time.offset, 0);

    assert!(receive_and_apply(&mut ch, &mut time, &mut state));
    assert_eq!(state, SessionState::Paused);
    assert_eq!(time.offset, 500);

    // Drained: a further consumer step applies nothing.
    assert!(!receive_and_apply(&mut ch, &mut time, &mut state));
    assert_eq!(state, SessionState::Paused);
    assert_eq!(time.offset, 500);
}

#[test]
fn blocked_sender_suspends_until_a_receive() {
    let ch: Channel<CriticalSectionRawMutex, u32, 4> = Channel::new();
    for n in 1..=4u32 {
        block_on(ch.send(n));
    }

    // A fifth send does not complete while the channel is full.
    assert!(poll_once(ch.send(5)).is_pending());

    // After one receive the same send completes at once, and the
    // receives come back in send order.
    assert_eq!(block_on(ch.receive()), 1);
    assert!(poll_once(ch.send(5)).is_ready());
    assert_eq!(block_on(ch.receive()), 2);
    assert_eq!(block_on(ch.receive()), 3);
    assert_eq!(block_on(ch.receive()), 4);
    assert_eq!(block_on(ch.receive()), 5);
}
