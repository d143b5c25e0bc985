use pitft_async::clock_util::SessionState;
use pitft_async::draw_panels::{Panel, PanelPosition, Payload};
use pitft_async::time_util::{format_time, Time, TICKS_PER_SECOND};

#[test]
fn until_next_concrete_values() {
    assert_eq!(Time::until_next(0, 1000), 0);
    assert_eq!(Time::until_next(1, 1000), 999);
    assert_eq!(Time::until_next(999, 5), 1);
    assert_eq!(Time::until_next(1000, 1000), 0);
    assert_eq!(Time::until_next(3661000, 1000), 0);
    assert_eq!(Time::until_next(3661500, 1000), 500);
}

#[test]
fn until_next_aligns_for_many_inputs() {
    for boundary in 1u64..40 {
        for now in 0u64..200 {
            let r = Time::until_next(now, boundary);
            assert!(r < boundary);
            assert_eq!((now + r) % boundary, 0);
        }
    }
}

#[test]
fn format_time_exact_bytes() {
    assert_eq!(&format_time(1, 1, 1), b"01:01:01            ");
    assert_eq!(&format_time(0, 0, 0), b"00:00:00            ");
    assert_eq!(&format_time(99, 59, 59), b"99:59:59            ");
    assert_eq!(&format_time(12, 34, 56), b"12:34:56            ");
}

#[test]
fn fresh_time_starts_work_running() {
    let t = Time::new(0);
    assert!(t.work_time.is_running);
    assert!(!t.break_time.is_running);
    assert!(!t.paused);
    assert_eq!(t.offset, 0);
    assert_eq!(t.work_time.seconds_running, 0);
}

#[test]
fn at_most_one_sub_session_runs() {
    let mut t = Time::new(0);
    assert!(!(t.work_time.is_running && t.break_time.is_running));
    t.sleep_for_work(500);
    assert!(!(t.work_time.is_running && t.break_time.is_running));
    t.sleep_for_break(1000);
    assert!(!(t.work_time.is_running && t.break_time.is_running));
    t.sleep_for_work(1500);
    assert!(!(t.work_time.is_running && t.break_time.is_running));
    t.sleep_for_pause();
    assert!(!t.work_time.is_running && !t.break_time.is_running);
}

#[test]
fn work_accumulates_only_while_running() {
    let mut t = Time::new(0);
    // Work has been running since instant 0.
    let (label, _) = t.sleep_for_work(2000);
    assert_eq!(t.work_time.seconds_running, 2000);
    assert_eq!(&label[..8], b"00:00:02");

    // Switch to break; work stops.
    t.sleep_for_break(3000);
    assert!(!t.work_time.is_running);
    assert_eq!(t.work_time.seconds_running, 2000);

    // Coming back to work at 10000: the idle stretch is not credited.
    let (label, _) = t.sleep_for_work(10000);
    assert_eq!(t.work_time.seconds_running, 2000);
    assert_eq!(&label[..8], b"00:00:02");

    // One more second of running work is credited.
    let (label, _) = t.sleep_for_work(11000);
    assert_eq!(t.work_time.seconds_running, 3000);
    assert_eq!(&label[..8], b"00:00:03");
}

#[test]
fn break_accumulates_symmetrically() {
    let mut t = Time::new(0);
    t.sleep_for_break(1000);
    assert!(t.break_time.is_running);
    assert_eq!(t.break_time.seconds_running, 0);
    let (label, _) = t.sleep_for_break(61000);
    assert_eq!(t.break_time.seconds_running, 60000);
    assert_eq!(&label[..8], b"00:01:00");
}

#[test]
fn pause_blanks_and_polls_flat() {
    let mut t = Time::new(0);
    let (label, sleep) = t.sleep_for_pause();
    assert_eq!(label, [0u8; 20]);
    assert_eq!(sleep, TICKS_PER_SECOND);
    assert!(t.paused);
}

#[test]
fn offset_shifts_the_calibrated_clock() {
    let mut t = Time::new(0);
    assert_eq!(t.now(500), 500);
    t.add_offset(250);
    assert_eq!(t.now(500), 750);
    // The sleep alignment follows the calibrated clock.
    let (_, sleep) = t.sleep_for_work(500);
    assert_eq!(sleep, 250);
}

#[test]
fn render_working_after_3661_seconds() {
    let mut t = Time::new(0);
    let (panel, sleep) = SessionState::Working.render(&mut t, 3_661_000);
    match panel {
        Panel(pos, Payload::Time(bytes)) => {
            assert_eq!(pos, PanelPosition::Top);
            assert_eq!(&bytes[..8], b"01:01:01");
        },
        _ => panic!("expected a time payload"),
    }
    assert!(sleep < TICKS_PER_SECOND);
    assert_eq!((3_661_000 + sleep) % TICKS_PER_SECOND, 0);
}

#[test]
fn render_paused_blanks_the_label() {
    let mut t = Time::new(0);
    let (panel, sleep) = SessionState::Paused.render(&mut t, 42);
    match panel {
        Panel(pos, Payload::Time(bytes)) => {
            assert_eq!(pos, PanelPosition::Middle);
            assert_eq!(bytes, [0u8; 20]);
        },
        _ => panic!("expected a time payload"),
    }
    assert_eq!(sleep, TICKS_PER_SECOND);
    assert!(!t.work_time.is_running && !t.break_time.is_running);
}

#[test]
fn render_break_goes_to_the_bottom_region() {
    let mut t = Time::new(0);
    let (panel, _) = SessionState::Break.render(&mut t, 5_000);
    match panel {
        Panel(pos, Payload::Time(bytes)) => {
            assert_eq!(pos, PanelPosition::Bottom);
            assert_eq!(&bytes[..8], b"00:00:00");
        },
        _ => panic!("expected a time payload"),
    }
}
