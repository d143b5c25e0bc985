//! The session state machine and the notices that mutate it.
//!
//! A session is always in exactly one of three states. The render
//! side turns the state and the elapsed-time record into a panel and
//! a wake-up deadline; the control side maps button presses to the
//! next state. State changes travel as [`SessionNotice`] messages and
//! are applied atomically by the one consumer that owns the
//! [`Time`] record.

use vstd::prelude::*;
use embassy_sync::blocking_mutex::raw::CriticalSectionRawMutex;
use embassy_sync::channel::Channel;
use crate::button::PressDuration;
use crate::draw_panels::{Panel, PanelPosition, Payload};
use crate::time_util::{
    hms_label, until_next_spec, Time, MAX_DISPLAY_SECONDS, TICKS_PER_SECOND,
};

verus! {

/// Ticks between two beats of a [`SingleClock`].
pub const CLOCK_TICK_INTERVAL: u64 = 100;

/// A free-running counter beaten from outside every
/// [`CLOCK_TICK_INTERVAL`] ticks.
pub struct SingleClock {
    pub run_duration: u64,
}

impl SingleClock {
    pub fn new() -> (c: SingleClock)
        ensures
            c.run_duration == 0,
    {
        SingleClock { run_duration: 0 }
    }

    /// One beat: credits one tick interval. The task driving the
    /// clock calls this each time its ticker fires.
    pub fn tick(&mut self)
        requires
            old(self).run_duration + CLOCK_TICK_INTERVAL <= u64::MAX,
        ensures
            final(self).run_duration == old(self).run_duration + CLOCK_TICK_INTERVAL,
    {
        self.run_duration = self.run_duration + CLOCK_TICK_INTERVAL;
    }
}

/// The mode a session is in. A fresh session starts working.
#[derive(Clone, Copy, Debug, PartialEq, Eq, Structural)]
pub enum SessionState {
    Working,
    Break,
    Paused,
}

impl Default for SessionState {
    fn default() -> (s: SessionState)
        ensures
            s is Working,
    {
        SessionState::Working
    }
}

impl SessionState {
    /// The state after one classified button press: a short press
    /// toggles between working and break, a long press pauses; from
    /// paused, a short press resumes work and a long press starts a
    /// break.
    pub fn next_state(self, press: PressDuration) -> (next: SessionState)
        ensures
            next == match (self, press) {
                (SessionState::Working, PressDuration::Short) => SessionState::Break,
                (SessionState::Working, PressDuration::Long) => SessionState::Paused,
                (SessionState::Break, PressDuration::Short) => SessionState::Working,
                (SessionState::Break, PressDuration::Long) => SessionState::Paused,
                (SessionState::Paused, PressDuration::Short) => SessionState::Working,
                (SessionState::Paused, PressDuration::Long) => SessionState::Break,
            },
    {
        match (self, press) {
            (SessionState::Working, PressDuration::Short) => SessionState::Break,
            (SessionState::Working, PressDuration::Long) => SessionState::Paused,
            (SessionState::Break, PressDuration::Short) => SessionState::Working,
            (SessionState::Break, PressDuration::Long) => SessionState::Paused,
            (SessionState::Paused, PressDuration::Short) => SessionState::Working,
            (SessionState::Paused, PressDuration::Long) => SessionState::Break,
        }
    }

    /// Turns the state and the elapsed-time record at instant `now`
    /// into the panel to draw and the ticks to sleep before the next
    /// redraw. Working and break credit their sub-session and align
    /// the wake-up to the next whole second of the calibrated clock;
    /// paused stops both sub-sessions, blanks the label and polls
    /// once a second.
    pub fn render(self, time: &mut Time, now: u64) -> (r: (Panel, u64))
        requires
            self is Working ==> {
                &&& (old(time).work_time.is_running ==> now >= old(time).work_time.last_update)
                &&& old(time).work_time.seconds_running + old(time).work_elapsed(now)
                    < MAX_DISPLAY_SECONDS * TICKS_PER_SECOND
                &&& now + old(time).offset <= u64::MAX
            },
            self is Break ==> {
                &&& (old(time).break_time.is_running ==> now >= old(time).break_time.last_update)
                &&& old(time).break_time.seconds_running + old(time).break_elapsed(now)
                    < MAX_DISPLAY_SECONDS * TICKS_PER_SECOND
                &&& now + old(time).offset <= u64::MAX
            },
        ensures
            final(time).wf(),
            final(time).offset == old(time).offset,
            r.0.0 == match self {
                SessionState::Working => PanelPosition::Top,
                SessionState::Break => PanelPosition::Bottom,
                SessionState::Paused => PanelPosition::Middle,
            },
            self is Working ==> {
                &&& final(time).work_time.is_running
                &&& !final(time).break_time.is_running
                &&& !final(time).paused
                &&& final(time).work_time.seconds_running
                    == old(time).work_time.seconds_running + old(time).work_elapsed(now)
                &&& final(time).break_time.seconds_running
                    == old(time).break_time.seconds_running
                &&& (r.0.1 matches Payload::Time(b) && b@ == hms_label(
                    final(time).work_time.seconds_running as int / TICKS_PER_SECOND as int,
                ))
                &&& r.1 == until_next_spec(now + old(time).offset, TICKS_PER_SECOND as int)
            },
            self is Break ==> {
                &&& final(time).break_time.is_running
                &&& !final(time).work_time.is_running
                &&& !final(time).paused
                &&& final(time).break_time.seconds_running
                    == old(time).break_time.seconds_running + old(time).break_elapsed(now)
                &&& final(time).work_time.seconds_running
                    == old(time).work_time.seconds_running
                &&& (r.0.1 matches Payload::Time(b) && b@ == hms_label(
                    final(time).break_time.seconds_running as int / TICKS_PER_SECOND as int,
                ))
                &&& r.1 == until_next_spec(now + old(time).offset, TICKS_PER_SECOND as int)
            },
            self is Paused ==> {
                &&& !final(time).work_time.is_running
                &&& !final(time).break_time.is_running
                &&& final(time).paused
                &&& final(time).work_time.seconds_running
                    == old(time).work_time.seconds_running
                &&& final(time).break_time.seconds_running
                    == old(time).break_time.seconds_running
                &&& (r.0.1 matches Payload::Time(b) && b@ == Seq::new(20, |i: int| 0u8))
                &&& r.1 == TICKS_PER_SECOND
            },
    {
        match self {
            SessionState::Working => {
                let (display_time, sleep_dur) = time.sleep_for_work(now);
                let panel = Panel::from_time(display_time, PanelPosition::Top);
                (panel, sleep_dur)
            },
            SessionState::Break => {
                let (display_time, sleep_dur) = time.sleep_for_break(now);
                let panel = Panel::from_time(display_time, PanelPosition::Bottom);
                (panel, sleep_dur)
            },
            SessionState::Paused => {
                let (display_time, sleep_dur) = time.sleep_for_pause();
                let panel = Panel::from_time(display_time, PanelPosition::Middle);
                (panel, sleep_dur)
            },
        }
    }
}

/// A requested state mutation, sent across a task boundary and
/// applied atomically by the single consumer.
#[derive(Clone, Copy, Debug, PartialEq, Eq, Structural)]
pub enum SessionNotice {
    SetState(SessionState),
    AdjustTimer(u64),
}

/// What applying a notice does: `SetState` replaces the session
/// state, `AdjustTimer` adds to the clock calibration offset.
pub open spec fn apply_spec(n: SessionNotice, t: Time, s: SessionState) -> (Time, SessionState)
    recommends
        n matches SessionNotice::AdjustTimer(d) ==> t.offset + d <= u64::MAX,
{
    match n {
        SessionNotice::SetState(new_state) => (t, new_state),
        SessionNotice::AdjustTimer(delta) => (
            Time {
                offset: (t.offset + delta) as u64,
                work_time: t.work_time,
                break_time: t.break_time,
                paused: t.paused,
            },
            s,
        ),
    }
}

impl SessionNotice {
    /// Applies this notice to the session's time record and state,
    /// atomically from the consumer's point of view.
    pub fn apply(self, time: &mut Time, state: &mut SessionState)
        requires
            self matches SessionNotice::AdjustTimer(d) ==> old(time).offset + d <= u64::MAX,
        ensures
            (*final(time), *final(state)) == apply_spec(self, *old(time), *old(state)),
            old(time).wf() ==> final(time).wf(),
    {
        match self {
            SessionNotice::AdjustTimer(delta) => {
                time.add_offset(delta);
            },
            SessionNotice::SetState(new_state) => {
                *state = new_state;
            },
        }
    }
}

/// The bounded notice channel: it holds at most 4 notices, any
/// number of producers may send, the render scheduler is the one
/// consumer, and notices come out in send order. It wraps the
/// bounded queue of the synchronisation library; the wrapped queue
/// is opaque here, so every fact about its contents comes from the
/// contracts of the functions below.
#[verifier::external_body]
pub struct SessionOuterNotifier {
    channel: Channel<CriticalSectionRawMutex, SessionNotice, 4>,
}

/// A notice as a plain pair: a variant tag and the variant's value.
pub open spec fn notice_repr(n: SessionNotice) -> (int, int) {
    match n {
        SessionNotice::SetState(SessionState::Working) => (0int, 0int),
        SessionNotice::SetState(SessionState::Break) => (0int, 1int),
        SessionNotice::SetState(SessionState::Paused) => (0int, 2int),
        SessionNotice::AdjustTimer(d) => (1int, d as int),
    }
}

/// Two notices with the same plain representation are the same
/// notice.
pub proof fn lemma_notice_repr_injective(a: SessionNotice, b: SessionNotice)
    requires
        notice_repr(a) == notice_repr(b),
    ensures
        a == b,
{
}

/// The notices the channel holds, oldest first, as plain pairs.
pub uninterp spec fn channel_notices(ch: SessionOuterNotifier) -> Seq<(int, int)>;

/// Relies on `embassy_sync::channel::Channel::new`: a fresh channel
/// holds nothing.
#[verifier::external_body]
pub fn notifier() -> (ch: SessionOuterNotifier)
    ensures
        channel_notices(ch) == Seq::<(int, int)>::empty(),
{
    SessionOuterNotifier { channel: Channel::new() }
}

/// Relies on `embassy_sync::channel::Channel::try_send`: the notice
/// joins the back of the queue when it holds fewer than 4, else the
/// send fails and the queue is unchanged.
#[verifier::external_body]
fn notice_try_send(ch: &mut SessionOuterNotifier, notice: SessionNotice) -> (ok: bool)
    ensures
        ok <==> channel_notices(*old(ch)).len() < 4,
        ok ==> channel_notices(*final(ch)) == channel_notices(*old(ch)).push(
            notice_repr(notice),
        ),
        !ok ==> channel_notices(*final(ch)) == channel_notices(*old(ch)),
{
    ch.channel.try_send(notice).is_ok()
}

/// Relies on `embassy_sync::channel::Channel::try_receive`: pops the
/// oldest notice, or fails on an empty queue and changes nothing.
#[verifier::external_body]
fn notice_try_receive(ch: &mut SessionOuterNotifier) -> (r: Option<SessionNotice>)
    ensures
        match r {
            Some(n) => {
                &&& channel_notices(*old(ch)).len() > 0
                &&& notice_repr(n) == channel_notices(*old(ch))[0]
                &&& channel_notices(*final(ch)) == channel_notices(*old(ch)).drop_first()
            },
            None => {
                &&& channel_notices(*old(ch)).len() == 0
                &&& channel_notices(*final(ch)) == channel_notices(*old(ch))
            },
        },
{
    match ch.channel.try_receive() {
        Ok(n) => Some(n),
        Err(_) => None,
    }
}

/// Publishes a state change without blocking: the notice joins the
/// queue when there is room and is refused when the channel already
/// holds 4 notices. A producer that must not lose the notice sends
/// through the channel's own blocking send instead and suspends
/// until there is room.
pub fn try_set_state(ch: &mut SessionOuterNotifier, new_state: SessionState) -> (ok: bool)
    ensures
        ok <==> channel_notices(*old(ch)).len() < 4,
        ok ==> channel_notices(*final(ch)) == channel_notices(*old(ch)).push(
            notice_repr(SessionNotice::SetState(new_state)),
        ),
        !ok ==> channel_notices(*final(ch)) == channel_notices(*old(ch)),
{
    notice_try_send(ch, SessionNotice::SetState(new_state))
}

/// Requests a timer adjustment without blocking, under the same
/// capacity rule as [`try_set_state`].
pub fn try_adjust_timer(ch: &mut SessionOuterNotifier, delta: u64) -> (ok: bool)
    ensures
        ok <==> channel_notices(*old(ch)).len() < 4,
        ok ==> channel_notices(*final(ch)) == channel_notices(*old(ch)).push(
            notice_repr(SessionNotice::AdjustTimer(delta)),
        ),
        !ok ==> channel_notices(*final(ch)) == channel_notices(*old(ch)),
{
    notice_try_send(ch, SessionNotice::AdjustTimer(delta))
}

/// The consumer step: pops the oldest pending notice, if there is
/// one, and applies it atomically to the session's time record and
/// state.
pub fn receive_and_apply(
    ch: &mut SessionOuterNotifier,
    time: &mut Time,
    state: &mut SessionState,
) -> (applied: bool)
    requires
        channel_notices(*old(ch)).len() > 0 && channel_notices(*old(ch))[0].0 == 1
            ==> old(time).offset + channel_notices(*old(ch))[0].1 <= u64::MAX,
    ensures
        applied <==> channel_notices(*old(ch)).len() > 0,
        !applied ==> {
            &&& channel_notices(*final(ch)) == channel_notices(*old(ch))
            &&& *final(time) == *old(time)
            &&& *final(state) == *old(state)
        },
        applied ==> {
            &&& channel_notices(*final(ch)) == channel_notices(*old(ch)).drop_first()
            &&& exists|n: SessionNotice|
                {
                    &&& #[trigger] notice_repr(n) == channel_notices(*old(ch))[0]
                    &&& (*final(time), *final(state)) == apply_spec(n, *old(time), *old(state))
                }
        },
        old(time).wf() ==> final(time).wf(),
{
    match notice_try_receive(ch) {
        Some(n) => {
            n.apply(time, state);
            true
        },
        None => false,
    }
}

/// Applying any notice keeps at most one of the two sub-sessions
/// running: the running-flag exclusion of [`Time::wf`] is an
/// invariant of the notice transition, for every notice and state.
pub proof fn lemma_apply_preserves_running_exclusion(
    n: SessionNotice,
    t: Time,
    s: SessionState,
)
    requires
        t.wf(),
    ensures
        apply_spec(n, t, s).0.wf(),
{
}

/// Applying `SetState` twice in sequence leaves the session exactly
/// as applying it once: the notice is idempotent.
pub proof fn lemma_set_state_idempotent(s: SessionState, t: Time, st: SessionState)
    ensures
        ({
            let (t1, s1) = apply_spec(SessionNotice::SetState(s), t, st);
            apply_spec(SessionNotice::SetState(s), t1, s1) == (t1, s1)
        }),
{
}

} // verus!
