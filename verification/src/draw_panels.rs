//! Panels: what to render next, addressed to a fixed screen region,
//! and the plain draw commands the renderer turns a panel into.
//!
//! The display driver consumes [`DrawCommand`]s; everything the
//! original widgets hard-code (region rectangles, divider geometry,
//! colors) is decided here so that the drawing layer keeps no logic.

use vstd::prelude::*;
use crate::animations::Animation;
use crate::clock_util::SessionState;
use crate::geometry::{Point, Rect, Size};
use crate::scenes::SceneData;

verus! {

/// Content a panel carries: a fixed 20-byte time label, an animation
/// to enqueue, a scene change, or nothing.
#[derive(Debug)]
pub enum Payload {
    Time([u8; 20]),
    Animate(Animation),
    NewScene(SceneData),
    Empty,
}

/// The payload's animation, if any, is well-formed.
pub open spec fn payload_wf(p: Payload) -> bool {
    match p {
        Payload::Animate(a) => a.wf(),
        _ => true,
    }
}

/// A named screen region with a fixed pixel rectangle.
#[derive(Clone, Copy, Debug, PartialEq, Eq, Structural)]
pub enum PanelPosition {
    Top,
    Middle,
    Bottom,
    FullScreen,
}

impl PanelPosition {
    /// The fixed pixel rectangle of this region.
    pub fn get_rect(&self) -> (r: Rect)
        ensures
            r == match *self {
                PanelPosition::Top => Rect {
                    top_left: Point { x: 10, y: 20 },
                    size: Size { width: 300, height: 50 },
                },
                PanelPosition::Middle => Rect {
                    top_left: Point { x: 60, y: 95 },
                    size: Size { width: 200, height: 50 },
                },
                PanelPosition::Bottom => Rect {
                    top_left: Point { x: 10, y: 160 },
                    size: Size { width: 300, height: 50 },
                },
                PanelPosition::FullScreen => Rect {
                    top_left: Point { x: 0, y: 0 },
                    size: Size { width: 320, height: 240 },
                },
            },
    {
        match self {
            PanelPosition::Top => Rect::new(Point::new(10, 20), Size::new(300, 50)),
            PanelPosition::Middle => Rect::new(Point::new(60, 95), Size::new(200, 50)),
            PanelPosition::Bottom => Rect::new(Point::new(10, 160), Size::new(300, 50)),
            PanelPosition::FullScreen => Rect::new(Point::zero(), Size::new(320, 240)),
        }
    }

    /// The session state a region's content belongs to: the top
    /// region shows the work timer, the bottom region the break
    /// timer, anything else belongs to the paused view.
    pub fn session_state(&self) -> (s: SessionState)
        ensures
            s == state_for_position(*self),
    {
        match self {
            PanelPosition::Top => SessionState::Working,
            PanelPosition::Bottom => SessionState::Break,
            _ => SessionState::Paused,
        }
    }
}

/// The session state a region's content belongs to.
pub open spec fn state_for_position(pos: PanelPosition) -> SessionState {
    match pos {
        PanelPosition::Top => SessionState::Working,
        PanelPosition::Bottom => SessionState::Break,
        _ => SessionState::Paused,
    }
}

/// A (region, content) pair: what to render next, and where.
#[derive(Debug)]
pub struct Panel(pub PanelPosition, pub Payload);

impl Panel {
    /// A panel showing a time label in the given region.
    pub fn from_time(time: [u8; 20], position: PanelPosition) -> (p: Panel)
        ensures
            p.0 == position,
            p.1 matches Payload::Time(b) && b@ == time@,
    {
        let payload = Payload::Time(time);
        Panel(position, payload)
    }
}

impl Default for Panel {
    /// A blank time label in the top region.
    fn default() -> (p: Panel)
        ensures
            p.0 is Top,
            p.1 matches Payload::Time(b) && b@ == Seq::new(20, |i: int| 0u8),
    {
        let zeros: [u8; 20] = [
            0, 0, 0, 0, 0, 0, 0, 0, 0, 0,
            0, 0, 0, 0, 0, 0, 0, 0, 0, 0,
        ];
        proof {
            assert(zeros@ =~= Seq::new(20, |i: int| 0u8));
        }
        Panel(PanelPosition::Top, Payload::Time(zeros))
    }
}

/// An RGB color, one byte per component.
#[derive(Clone, Copy, Debug, PartialEq, Eq, Structural)]
pub struct Color {
    pub r: u8,
    pub g: u8,
    pub b: u8,
}

/// One plain drawing instruction for the display layer.
#[derive(Debug)]
pub enum DrawCommand {
    /// Draw `1` as seven-segment text inside the region `0`.
    Segmented(PanelPosition, Vec<u8>),
    /// Redraw the divider strip for the given session state.
    Divider(SessionState),
    /// Draw one animation frame rectangle.
    FrameRect(Rect),
}

/// The icon drawn on the divider strip: an arrow triangle pointing up
/// or down, or the two pause bars.
#[derive(Clone, Copy, Debug, PartialEq, Eq, Structural)]
pub enum DividerIcon {
    Arrow(Point, Point, Point),
    PauseBars(Rect, Rect),
}

/// Everything the divider strip draws for one session state: accent
/// color, icon, text label, and which of the two divider polylines to
/// stroke.
#[derive(Debug)]
pub struct DividerLayout {
    pub color: Color,
    pub icon: DividerIcon,
    pub label: &'static str,
    pub show_working_line: bool,
    pub show_break_line: bool,
}

/// The four points of the divider polyline drawn while working.
pub fn working_divider_points() -> (r: [Point; 4])
    ensures
        r@ == seq![
            Point { x: 70, y: 10 },
            Point { x: 160, y: 10 },
            Point { x: 190, y: 30 },
            Point { x: 290, y: 30 },
        ],
{
    let pts: [Point; 4] = [
        Point { x: 70, y: 10 },
        Point { x: 160, y: 10 },
        Point { x: 190, y: 30 },
        Point { x: 290, y: 30 },
    ];
    proof {
        assert(pts@ =~= seq![
            Point { x: 70, y: 10 },
            Point { x: 160, y: 10 },
            Point { x: 190, y: 30 },
            Point { x: 290, y: 30 },
        ]);
    }
    pts
}

/// The four points of the divider polyline drawn on break.
pub fn break_divider_points() -> (r: [Point; 4])
    ensures
        r@ == seq![
            Point { x: 70, y: 30 },
            Point { x: 160, y: 30 },
            Point { x: 190, y: 10 },
            Point { x: 290, y: 10 },
        ],
{
    let pts: [Point; 4] = [
        Point { x: 70, y: 30 },
        Point { x: 160, y: 30 },
        Point { x: 190, y: 10 },
        Point { x: 290, y: 10 },
    ];
    proof {
        assert(pts@ =~= seq![
            Point { x: 70, y: 30 },
            Point { x: 160, y: 30 },
            Point { x: 190, y: 10 },
            Point { x: 290, y: 10 },
        ]);
    }
    pts
}

/// What the divider strip shows for each session state: working is
/// light blue with an up arrow, break is salmon with a down arrow,
/// paused is white with pause bars and both polylines.
pub fn divider_layout(mode: SessionState) -> (l: DividerLayout)
    ensures
        mode is Working ==> {
            &&& l.color == (Color { r: 123, g: 191, b: 255 })
            &&& l.icon == DividerIcon::Arrow(
                Point { x: 25, y: 30 },
                Point { x: 55, y: 30 },
                Point { x: 40, y: 10 },
            )
            &&& l.label@ == "working"@
            &&& l.show_working_line
            &&& !l.show_break_line
        },
        mode is Break ==> {
            &&& l.color == (Color { r: 255, g: 148, b: 150 })
            &&& l.icon == DividerIcon::Arrow(
                Point { x: 25, y: 10 },
                Point { x: 55, y: 10 },
                Point { x: 40, y: 30 },
            )
            &&& l.label@ == "on break"@
            &&& !l.show_working_line
            &&& l.show_break_line
        },
        mode is Paused ==> {
            &&& l.color == (Color { r: 255, g: 255, b: 255 })
            &&& l.icon == DividerIcon::PauseBars(
                Rect {
                    top_left: Point { x: 35, y: 10 },
                    size: Size { width: 5, height: 20 },
                },
                Rect {
                    top_left: Point { x: 45, y: 10 },
                    size: Size { width: 5, height: 20 },
                },
            )
            &&& l.label@ == "paused"@
            &&& l.show_working_line
            &&& l.show_break_line
        },
{
    match mode {
        SessionState::Working => DividerLayout {
            color: Color { r: 123, g: 191, b: 255 },
            icon: DividerIcon::Arrow(
                Point { x: 25, y: 30 },
                Point { x: 55, y: 30 },
                Point { x: 40, y: 10 },
            ),
            label: "working",
            show_working_line: true,
            show_break_line: false,
        },
        SessionState::Break => DividerLayout {
            color: Color { r: 255, g: 148, b: 150 },
            icon: DividerIcon::Arrow(
                Point { x: 25, y: 10 },
                Point { x: 55, y: 10 },
                Point { x: 40, y: 30 },
            ),
            label: "on break",
            show_working_line: false,
            show_break_line: true,
        },
        SessionState::Paused => DividerLayout {
            color: Color { r: 255, g: 255, b: 255 },
            icon: DividerIcon::PauseBars(
                Rect {
                    top_left: Point { x: 35, y: 10 },
                    size: Size { width: 5, height: 20 },
                },
                Rect {
                    top_left: Point { x: 45, y: 10 },
                    size: Size { width: 5, height: 20 },
                },
            ),
            label: "paused",
            show_working_line: true,
            show_break_line: true,
        },
    }
}

/// Where seven-segment text for a region is blitted and in which
/// color; only the top and bottom timer regions carry such text.
pub fn segment_area(pos: &PanelPosition) -> (r: Option<(Rect, Color)>)
    ensures
        *pos is Top ==> r == Some(
            (
                Rect {
                    top_left: Point { x: 30, y: 20 },
                    size: Size { width: 320, height: 240 },
                },
                Color { r: 123, g: 191, b: 255 },
            ),
        ),
        *pos is Bottom ==> r == Some(
            (
                Rect {
                    top_left: Point { x: 30, y: 170 },
                    size: Size { width: 320, height: 240 },
                },
                Color { r: 255, g: 148, b: 150 },
            ),
        ),
        *pos is Middle || *pos is FullScreen ==> r is None,
{
    match pos {
        PanelPosition::Top => Some(
            (
                Rect::new(Point::new(30, 20), Size::new(320, 240)),
                Color { r: 123, g: 191, b: 255 },
            ),
        ),
        PanelPosition::Bottom => Some(
            (
                Rect::new(Point::new(30, 170), Size::new(320, 240)),
                Color { r: 255, g: 148, b: 150 },
            ),
        ),
        _ => None,
    }
}

/// Every byte is plain seven-bit text.
pub open spec fn is_ascii_text(s: Seq<u8>) -> bool {
    forall|i: int| 0 <= i < s.len() ==> s[i] < 0x80
}

/// The placeholder drawn in place of a label that is not plain text.
pub open spec fn placeholder_text() -> Seq<u8> {
    seq![0x65u8, 0x72u8, 0x72u8, 0x6fu8, 0x72u8]
}

/// The draw commands a time label produces: seven-segment text for
/// the top and bottom timer regions (the label itself when it is
/// plain text, the placeholder otherwise), then the region's divider.
pub open spec fn time_commands_match(
    cmds: Seq<DrawCommand>,
    pos: PanelPosition,
    bytes: Seq<u8>,
) -> bool {
    let msg = if is_ascii_text(bytes) {
        bytes
    } else {
        placeholder_text()
    };
    if pos is Top || pos is Bottom {
        &&& cmds.len() == 2
        &&& (cmds[0] matches DrawCommand::Segmented(p, m) && p == pos && m@ == msg)
        &&& cmds[1] == DrawCommand::Divider(state_for_position(pos))
    } else {
        &&& cmds.len() == 1
        &&& cmds[0] == DrawCommand::Divider(state_for_position(pos))
    }
}

} // verus!
