use pitft_async::animations::{Animation, CursorMove, FrameType};
use pitft_async::clickable::ClickableElement;
use pitft_async::clock_util::{SessionNotice, SessionState};
use pitft_async::draw_panels::{
    divider_layout, segment_area, DividerIcon, DrawCommand, Panel, PanelPosition, Payload,
};
use pitft_async::error::Error;
use pitft_async::geometry::{Point, Rect, Size};
use pitft_async::button::PressDuration::{Long, Short};
use pitft_async::scenes::{SceneData, SceneManager, UIAction, UINode, UIType};
use pitft_async::time_util::Time;

#[test]
fn digits_wrap_like_a_dial() {
    let mut scene = SceneData::default();
    let mut digits = pitft_async::scenes::DigitsElement {
        position: Rect::new(Point::new(0, 0), Size::new(10, 10)),
        current_digit: 5,
        next_element: 2,
        prev_element: 7,
    };
    digits.handle_action(&mut scene, UIAction::MoveNext);
    assert_eq!(digits.current_digit, 6);
    digits.current_digit = 9;
    digits.handle_action(&mut scene, UIAction::MoveNext);
    assert_eq!(digits.current_digit, 1);
    digits.current_digit = 0;
    digits.handle_action(&mut scene, UIAction::MoveBack);
    assert_eq!(digits.current_digit, 8);

    digits.handle_action(&mut scene, UIAction::Select);
    assert_eq!(scene.cursor_index, 2);
    digits.handle_action(&mut scene, UIAction::Back);
    assert_eq!(scene.cursor_index, 7);
    assert_eq!(digits.get_position(), Rect::new(Point::new(0, 0), Size::new(10, 10)));
}

#[test]
fn clickable_counts_selections() {
    let mut scene = SceneData::default();
    let mut element = ClickableElement {
        position: Rect::new(Point::new(1, 1), Size::new(5, 5)),
        value: 0,
        next_element: 3,
        prev_element: 9,
    };
    element.handle_action(&mut scene, UIAction::Select);
    element.handle_action(&mut scene, UIAction::Select);
    assert_eq!(element.value, 2);
    element.handle_action(&mut scene, UIAction::MoveNext);
    assert_eq!(scene.cursor_index, 3);
    element.handle_action(&mut scene, UIAction::MoveBack);
    assert_eq!(scene.cursor_index, 9);
}

#[test]
fn default_scene_is_ten_text_boxes() {
    let scene = SceneData::default();
    assert_eq!(scene.elements.len(), 10);
    assert!(scene.elements.iter().all(|e| matches!(e, UIType::TextBox)));
    assert_eq!(scene.cursor_index, 0);
    let manager = SceneManager::default();
    assert!(!manager.playing_animation);
    assert!(manager.animation_queue.queue.iter().all(|a| matches!(a, Animation::Empty)));
}

#[test]
fn regions_have_fixed_rectangles() {
    assert_eq!(
        PanelPosition::Top.get_rect(),
        Rect::new(Point::new(10, 20), Size::new(300, 50)),
    );
    assert_eq!(
        PanelPosition::Middle.get_rect(),
        Rect::new(Point::new(60, 95), Size::new(200, 50)),
    );
    assert_eq!(
        PanelPosition::Bottom.get_rect(),
        Rect::new(Point::new(10, 160), Size::new(300, 50)),
    );
    assert_eq!(
        PanelPosition::FullScreen.get_rect(),
        Rect::new(Point::new(0, 0), Size::new(320, 240)),
    );
}

#[test]
fn divider_layouts_match_their_state() {
    let l = divider_layout(SessionState::Working);
    assert_eq!(l.label, "working");
    assert_eq!((l.color.r, l.color.g, l.color.b), (123, 191, 255));
    assert!(l.show_working_line && !l.show_break_line);
    assert!(matches!(l.icon, DividerIcon::Arrow(_, _, _)));

    let l = divider_layout(SessionState::Break);
    assert_eq!(l.label, "on break");
    assert_eq!((l.color.r, l.color.g, l.color.b), (255, 148, 150));
    assert!(!l.show_working_line && l.show_break_line);

    let l = divider_layout(SessionState::Paused);
    assert_eq!(l.label, "paused");
    assert!(l.show_working_line && l.show_break_line);
    assert!(matches!(l.icon, DividerIcon::PauseBars(_, _)));
}

#[test]
fn segment_text_only_in_timer_regions() {
    assert!(segment_area(&PanelPosition::Top).is_some());
    assert!(segment_area(&PanelPosition::Bottom).is_some());
    assert!(segment_area(&PanelPosition::Middle).is_none());
    assert!(segment_area(&PanelPosition::FullScreen).is_none());
}

#[test]
fn time_panel_becomes_text_and_divider() {
    let mut manager = SceneManager::default();
    let label = *b"00:00:07            ";
    let cmds = manager.handle_payload(Panel(PanelPosition::Top, Payload::Time(label)));
    assert_eq!(cmds.len(), 2);
    match &cmds[0] {
        DrawCommand::Segmented(pos, msg) => {
            assert_eq!(*pos, PanelPosition::Top);
            assert_eq!(msg.as_slice(), label.as_slice());
        },
        _ => panic!("expected seven-segment text first"),
    }
    match &cmds[1] {
        DrawCommand::Divider(state) => assert_eq!(*state, SessionState::Working),
        _ => panic!("expected the divider second"),
    }
}

#[test]
fn malformed_label_gets_the_placeholder() {
    let mut manager = SceneManager::default();
    let mut label = [0xFFu8; 20];
    label[0] = b'0';
    let cmds = manager.handle_payload(Panel(PanelPosition::Bottom, Payload::Time(label)));
    match &cmds[0] {
        DrawCommand::Segmented(pos, msg) => {
            assert_eq!(*pos, PanelPosition::Bottom);
            assert_eq!(msg.as_slice(), b"error");
        },
        _ => panic!("expected seven-segment text first"),
    }
    match &cmds[1] {
        DrawCommand::Divider(state) => assert_eq!(*state, SessionState::Break),
        _ => panic!("expected the divider second"),
    }
}

#[test]
fn middle_region_label_draws_only_the_divider() {
    let mut manager = SceneManager::default();
    let cmds = manager.handle_payload(Panel(PanelPosition::Middle, Payload::Time([0u8; 20])));
    assert_eq!(cmds.len(), 1);
    match &cmds[0] {
        DrawCommand::Divider(state) => assert_eq!(*state, SessionState::Paused),
        _ => panic!("expected only the divider"),
    }
}

#[test]
fn animate_payload_starts_playing_and_draws_a_frame() {
    let mut manager = SceneManager::default();
    let cursor = CursorMove::initialize(Point::new(0, 0), Point::new(2, 2));
    let cmds = manager.handle_payload(Panel(
        PanelPosition::FullScreen,
        Payload::Animate(Animation::Cursor(cursor)),
    ));
    assert!(manager.playing_animation);
    assert_eq!(cmds.len(), 1);
    assert!(matches!(cmds[0], DrawCommand::FrameRect(_)));
}

#[test]
fn full_pool_animate_payload_changes_nothing() {
    let mut manager = SceneManager::default();
    for _ in 0..6 {
        let cursor = CursorMove::initialize(Point::new(0, 0), Point::new(9, 9));
        manager.handle_payload(Panel(
            PanelPosition::FullScreen,
            Payload::Animate(Animation::Cursor(cursor)),
        ));
    }
    let queue_before: Vec<usize> = manager
        .animation_queue
        .queue
        .iter()
        .map(|a| match a {
            Animation::Cursor(c) => c.frame_data.frame_index,
            Animation::Empty => usize::MAX,
        })
        .collect();

    let cursor = CursorMove::initialize(Point::new(0, 0), Point::new(9, 9));
    let cmds = manager.handle_payload(Panel(
        PanelPosition::FullScreen,
        Payload::Animate(Animation::Cursor(cursor)),
    ));
    assert!(cmds.is_empty());
    let queue_after: Vec<usize> = manager
        .animation_queue
        .queue
        .iter()
        .map(|a| match a {
            Animation::Cursor(c) => c.frame_data.frame_index,
            Animation::Empty => usize::MAX,
        })
        .collect();
    assert_eq!(queue_before, queue_after);
}

#[test]
fn playing_flag_clears_when_all_slots_finish_together() {
    let mut manager = SceneManager::default();
    let one_frame = CursorMove::initialize(Point::new(4, 4), Point::new(4, 4));
    manager.handle_payload(Panel(
        PanelPosition::FullScreen,
        Payload::Animate(Animation::Cursor(one_frame)),
    ));
    // The insertion tick consumed the single frame.
    assert!(manager.playing_animation);
    let cmds = manager.render_next_frame();
    assert!(cmds.is_empty());
    assert!(!manager.playing_animation);
}

#[test]
fn play_next_reports_one_frame_per_slot() {
    let mut manager = SceneManager::default();
    let frames = manager.play_next();
    assert_eq!(frames.len(), 6);
    assert!(frames.iter().all(|f| matches!(f, FrameType::Empty)));
}

#[test]
fn scene_payloads_draw_nothing() {
    let mut manager = SceneManager::default();
    let cmds = manager.handle_payload(Panel(PanelPosition::Top, Payload::Empty));
    assert!(cmds.is_empty());
    let cmds = manager.handle_payload(Panel(
        PanelPosition::Top,
        Payload::NewScene(SceneData::default()),
    ));
    assert!(cmds.is_empty());
}

#[test]
fn next_state_covers_every_press() {
    assert_eq!(SessionState::Working.next_state(Short), SessionState::Break);
    assert_eq!(SessionState::Working.next_state(Long), SessionState::Paused);
    assert_eq!(SessionState::Break.next_state(Short), SessionState::Working);
    assert_eq!(SessionState::Break.next_state(Long), SessionState::Paused);
    assert_eq!(SessionState::Paused.next_state(Short), SessionState::Working);
    assert_eq!(SessionState::Paused.next_state(Long), SessionState::Break);
}

#[test]
fn set_state_notice_is_idempotent() {
    let mut time = Time::new(0);
    let mut state = SessionState::Working;
    SessionNotice::SetState(SessionState::Paused).apply(&mut time, &mut state);
    let offset_once = time.offset;
    let state_once = state;
    SessionNotice::SetState(SessionState::Paused).apply(&mut time, &mut state);
    assert_eq!(state, state_once);
    assert_eq!(time.offset, offset_once);
}

#[test]
fn adjust_timer_notice_moves_the_offset() {
    let mut time = Time::new(0);
    let mut state = SessionState::Working;
    SessionNotice::AdjustTimer(750).apply(&mut time, &mut state);
    assert_eq!(time.offset, 750);
    assert_eq!(state, SessionState::Working);
}

#[test]
fn panel_constructors() {
    let p = Panel::from_time(*b"12:00:00            ", PanelPosition::Bottom);
    assert_eq!(p.0, PanelPosition::Bottom);
    assert!(matches!(p.1, Payload::Time(b) if &b[..8] == b"12:00:00"));
    let d = Panel::default();
    assert_eq!(d.0, PanelPosition::Top);
    assert!(matches!(d.1, Payload::Time(b) if b == [0u8; 20]));
}

#[test]
fn error_messages_name_the_failure() {
    assert_eq!(Error::TaskSpawn.message(), "could not start a required task");
    assert_eq!(Error::SetStateError.message(), "error setting state");
    assert_ne!(Error::TaskSpawn, Error::SetStateError);
}
