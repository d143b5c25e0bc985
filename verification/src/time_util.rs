//! Elapsed-time tracking for the two sub-sessions (work and break) and
//! the tick-alignment arithmetic that keeps the visible clock in step
//! with wall time.
//!
//! All instants and durations are in ticks of a monotonic clock; one
//! second is [`TICKS_PER_SECOND`] ticks. The caller (the render
//! scheduler task) reads the clock and passes the current instant in,
//! so every function here is deterministic and fully specified.

use vstd::prelude::*;

verus! {

/// Ticks of the monotonic clock per second.
pub const TICKS_PER_SECOND: u64 = 1000;

/// Sessions longer than this many seconds do not fit the two-digit
/// hour field of the display label.
pub const MAX_DISPLAY_SECONDS: u64 = 360000;

/// The label bytes for `h` hours, `m` minutes and `s` seconds:
/// "HH:MM:SS" at offset 0, space-padded to 20 bytes.
pub open spec fn time_label(h: int, m: int, s: int) -> Seq<u8> {
    seq![
        (0x30 + h / 10) as u8,
        (0x30 + h % 10) as u8,
        0x3au8,
        (0x30 + m / 10) as u8,
        (0x30 + m % 10) as u8,
        0x3au8,
        (0x30 + s / 10) as u8,
        (0x30 + s % 10) as u8,
        0x20u8, 0x20u8, 0x20u8, 0x20u8, 0x20u8, 0x20u8,
        0x20u8, 0x20u8, 0x20u8, 0x20u8, 0x20u8, 0x20u8,
    ]
}

/// The label for a total number of elapsed seconds.
pub open spec fn hms_label(total_seconds: int) -> Seq<u8> {
    time_label(total_seconds / 3600, (total_seconds % 3600) / 60, total_seconds % 60)
}

/// Ticks to wait so that `now + result` lands exactly on the next
/// whole multiple of `boundary` (0 when `now` is already aligned).
pub open spec fn until_next_spec(now: int, boundary: int) -> int
    recommends
        boundary > 0,
{
    (boundary - now % boundary) % boundary
}

/// Formats `hours:mins:seconds` as "HH:MM:SS", space-padded to the
/// fixed 20-byte display buffer.
pub fn format_time(hours: u64, mins: u64, seconds: u64) -> (r: [u8; 20])
    requires
        hours <= 99,
        mins <= 59,
        seconds <= 59,
    ensures
        r@ == time_label(hours as int, mins as int, seconds as int),
{
    let h1: u8 = (hours / 10) as u8 + 0x30;
    let h2: u8 = (hours % 10) as u8 + 0x30;
    let m1: u8 = (mins / 10) as u8 + 0x30;
    let m2: u8 = (mins % 10) as u8 + 0x30;
    let s1: u8 = (seconds / 10) as u8 + 0x30;
    let s2: u8 = (seconds % 10) as u8 + 0x30;
    let buffer: [u8; 20] = [
        h1, h2, 0x3a, m1, m2, 0x3a, s1, s2,
        0x20, 0x20, 0x20, 0x20, 0x20, 0x20,
        0x20, 0x20, 0x20, 0x20, 0x20, 0x20,
    ];
    proof {
        assert(buffer@ =~= time_label(hours as int, mins as int, seconds as int));
    }
    buffer
}

/// One sub-session's running total: the instant it was last credited,
/// the ticks it has accumulated, and whether it is currently running.
pub struct SingleTime {
    pub last_update: u64,
    pub seconds_running: u64,
    pub is_running: bool,
}

/// Elapsed-time state for both sub-sessions plus a calibration offset
/// added to every clock reading.
pub struct Time {
    pub offset: u64,
    pub work_time: SingleTime,
    pub break_time: SingleTime,
    pub paused: bool,
}

impl Time {
    /// At most one sub-session runs at any observed instant.
    pub open spec fn wf(self) -> bool {
        !(self.work_time.is_running && self.break_time.is_running)
    }

    /// Ticks the work sub-session would be credited at instant `now`.
    pub open spec fn work_elapsed(self, now: u64) -> int {
        if self.work_time.is_running {
            now - self.work_time.last_update
        } else {
            0
        }
    }

    /// Ticks the break sub-session would be credited at instant `now`.
    pub open spec fn break_elapsed(self, now: u64) -> int {
        if self.break_time.is_running {
            now - self.break_time.last_update
        } else {
            0
        }
    }

    /// Fresh state at instant `now`: the work sub-session starts
    /// running immediately, the break sub-session is stopped.
    pub fn new(now: u64) -> (t: Time)
        ensures
            t.wf(),
            t.offset == 0,
            !t.paused,
            t.work_time == (SingleTime { last_update: now, seconds_running: 0, is_running: true }),
            t.break_time == (SingleTime { last_update: now, seconds_running: 0, is_running: false }),
    {
        Time {
            offset: 0,
            work_time: SingleTime { last_update: now, seconds_running: 0, is_running: true },
            break_time: SingleTime { last_update: now, seconds_running: 0, is_running: false },
            paused: false,
        }
    }

    /// The calibrated clock reading: the raw instant plus the offset.
    pub fn now(&self, instant: u64) -> (r: u64)
        requires
            instant + self.offset <= u64::MAX,
        ensures
            r == instant + self.offset,
    {
        instant + self.offset
    }

    /// Credits the work sub-session up to instant `now` (starting it
    /// first if it was stopped, so time spent in another state is
    /// never counted), stops the break sub-session, and returns the
    /// display label together with the ticks to sleep so the next
    /// redraw lands on a whole-second boundary of the calibrated
    /// clock.
    pub fn sleep_for_work(&mut self, now: u64) -> (r: ([u8; 20], u64))
        requires
            old(self).work_time.is_running ==> now >= old(self).work_time.last_update,
            old(self).work_time.seconds_running + old(self).work_elapsed(now)
                < MAX_DISPLAY_SECONDS * TICKS_PER_SECOND,
            now + old(self).offset <= u64::MAX,
        ensures
            final(self).wf(),
            final(self).work_time.is_running,
            !final(self).break_time.is_running,
            !final(self).paused,
            final(self).work_time.last_update == now,
            final(self).work_time.seconds_running
                == old(self).work_time.seconds_running + old(self).work_elapsed(now),
            final(self).break_time.seconds_running == old(self).break_time.seconds_running,
            final(self).break_time.last_update == old(self).break_time.last_update,
            final(self).offset == old(self).offset,
            r.0@ == hms_label(final(self).work_time.seconds_running as int / TICKS_PER_SECOND as int),
            r.1 == until_next_spec(now + final(self).offset, TICKS_PER_SECOND as int),
    {
        let now_calibrated: u64 = now + self.offset;
        let sleep_duration: u64 = Time::until_next(now_calibrated, TICKS_PER_SECOND);

        self.break_time.is_running = false;
        self.paused = false;
        if !self.work_time.is_running {
            self.work_time.last_update = now;
            self.work_time.is_running = true;
        }
        let elapsed: u64 = now - self.work_time.last_update;
        self.work_time.seconds_running = self.work_time.seconds_running + elapsed;
        self.work_time.last_update = now;

        let seconds_now: u64 = self.work_time.seconds_running / TICKS_PER_SECOND;
        let hours: u64 = seconds_now / 3600;
        let minutes: u64 = (seconds_now % 3600) / 60;
        let seconds: u64 = seconds_now % 60;

        let time_arr: [u8; 20] = format_time(hours, minutes, seconds);
        (time_arr, sleep_duration)
    }

    /// Counterpart of [`Time::sleep_for_work`] for the break
    /// sub-session.
    pub fn sleep_for_break(&mut self, now: u64) -> (r: ([u8; 20], u64))
        requires
            old(self).break_time.is_running ==> now >= old(self).break_time.last_update,
            old(self).break_time.seconds_running + old(self).break_elapsed(now)
                < MAX_DISPLAY_SECONDS * TICKS_PER_SECOND,
            now + old(self).offset <= u64::MAX,
        ensures
            final(self).wf(),
            final(self).break_time.is_running,
            !final(self).work_time.is_running,
            !final(self).paused,
            final(self).break_time.last_update == now,
            final(self).break_time.seconds_running
                == old(self).break_time.seconds_running + old(self).break_elapsed(now),
            final(self).work_time.seconds_running == old(self).work_time.seconds_running,
            final(self).work_time.last_update == old(self).work_time.last_update,
            final(self).offset == old(self).offset,
            r.0@ == hms_label(final(self).break_time.seconds_running as int / TICKS_PER_SECOND as int),
            r.1 == until_next_spec(now + final(self).offset, TICKS_PER_SECOND as int),
    {
        let now_calibrated: u64 = now + self.offset;
        let sleep_duration: u64 = Time::until_next(now_calibrated, TICKS_PER_SECOND);

        self.work_time.is_running = false;
        self.paused = false;
        if !self.break_time.is_running {
            self.break_time.last_update = now;
            self.break_time.is_running = true;
        }
        let elapsed: u64 = now - self.break_time.last_update;
        self.break_time.seconds_running = self.break_time.seconds_running + elapsed;
        self.break_time.last_update = now;

        let seconds_now: u64 = self.break_time.seconds_running / TICKS_PER_SECOND;
        let hours: u64 = seconds_now / 3600;
        let minutes: u64 = (seconds_now % 3600) / 60;
        let seconds: u64 = seconds_now % 60;

        let time_arr: [u8; 20] = format_time(hours, minutes, seconds);
        (time_arr, sleep_duration)
    }

    /// Stops both sub-sessions, marks the state paused, and returns a
    /// blank label with a flat one-second poll interval.
    pub fn sleep_for_pause(&mut self) -> (r: ([u8; 20], u64))
        ensures
            final(self).wf(),
            !final(self).work_time.is_running,
            !final(self).break_time.is_running,
            final(self).paused,
            final(self).work_time.seconds_running == old(self).work_time.seconds_running,
            final(self).break_time.seconds_running == old(self).break_time.seconds_running,
            final(self).work_time.last_update == old(self).work_time.last_update,
            final(self).break_time.last_update == old(self).break_time.last_update,
            final(self).offset == old(self).offset,
            r.0@ == Seq::<u8>::new(20, |i: int| 0u8),
            r.1 == TICKS_PER_SECOND,
    {
        self.work_time.is_running = false;
        self.break_time.is_running = false;
        self.paused = true;
        let blank: [u8; 20] = [
            0, 0, 0, 0, 0, 0, 0, 0, 0, 0,
            0, 0, 0, 0, 0, 0, 0, 0, 0, 0,
        ];
        proof {
            assert(blank@ =~= Seq::<u8>::new(20, |i: int| 0u8));
        }
        (blank, TICKS_PER_SECOND)
    }

    /// Ticks to wait from `now` until the next whole multiple of
    /// `boundary`; 0 when `now` is already aligned. `now + result` is
    /// always a multiple of `boundary` and the result is below
    /// `boundary`, so redraws land on the boundary without drifting.
    pub fn until_next(now: u64, boundary: u64) -> (r: u64)
        requires
            boundary > 0,
        ensures
            r == until_next_spec(now as int, boundary as int),
            r < boundary,
            (now + r) % (boundary as int) == 0,
    {
        let rem: u64 = now % boundary;
        let r: u64 = if rem == 0 {
            0
        } else {
            boundary - rem
        };
        proof {
            let b: int = boundary as int;
            let q: int = now as int / b;
            vstd::arithmetic::div_mod::lemma_mod_bound(now as int, b);
            vstd::arithmetic::div_mod::lemma_fundamental_div_mod(now as int, b);
            vstd::arithmetic::div_mod::lemma_mod_self_0(b);
            if rem != 0 {
                vstd::arithmetic::div_mod::lemma_small_mod((b - rem) as nat, b as nat);
                assert(now as int + r == b * q + b);
                assert(b * q + b == (q + 1) * b) by (nonlinear_arith);
                vstd::arithmetic::div_mod::lemma_mod_multiples_basic(q + 1, b);
            }
        }
        r
    }

    /// Adds `rhs` ticks to the calibration offset; every later clock
    /// reading is shifted by that much.
    pub fn add_offset(&mut self, rhs: u64)
        requires
            old(self).offset + rhs <= u64::MAX,
        ensures
            final(self).offset == old(self).offset + rhs,
            final(self).work_time == old(self).work_time,
            final(self).break_time == old(self).break_time,
            final(self).paused == old(self).paused,
    {
        self.offset = self.offset + rhs;
    }
}

impl Default for Time {
    /// Fresh state with the clock origin at instant 0.
    fn default() -> (t: Time)
        ensures
            t.wf(),
            t.offset == 0,
            !t.paused,
            t.work_time == (SingleTime { last_update: 0, seconds_running: 0, is_running: true }),
            t.break_time == (SingleTime { last_update: 0, seconds_running: 0, is_running: false }),
    {
        Time::new(0)
    }
}

} // verus!
