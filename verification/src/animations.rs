//! The bounded animation-frame engine.
//!
//! An [`Animation`] produces one frame per tick until its frames are
//! exhausted. [`AnimationState`] is a fixed pool of
//! [`crate::constants::MAX_ANIMATIONS`] slots used as a slot
//! allocator: a new animation occupies the first empty slot, and a
//! request finding no empty slot is dropped silently. Each tick every
//! occupied slot is asked for its next frame; a slot whose animation
//! reports exhaustion resets to empty.
//!
//! The one cursor animation walks a precomputed discrete pixel path
//! between two points; the path itself comes from the graphics
//! library's line rasteriser through a trusted wrapper.

use vstd::prelude::*;
use crate::constants::MAX_ANIMATIONS;
use crate::geometry::{abs_diff, spanning_rect, Point, Rect, Size};

verus! {

/// The pixel walk that the graphics library's line rasteriser yields
/// from `(ax, ay)` to `(bx, by)`; named here, stated only through the
/// facts on [`line_points`].
pub uninterp spec fn line_path(ax: int, ay: int, bx: int, by: int) -> Seq<(int, int)>;

/// Relies on `embedded_graphics::primitives::Line::points`: the
/// Bresenham walk over all points of the line, in order. It starts at
/// `start`, ends at `end`, and yields one point per step of the major
/// axis, so its length is the larger coordinate delta plus one.
#[verifier::external_body]
fn line_points(start: Point, end: Point) -> (r: Vec<Point>)
    requires
        start.in_range(),
        end.in_range(),
    ensures
        r@.map_values(|p: Point| (p.x as int, p.y as int))
            == line_path(start.x as int, start.y as int, end.x as int, end.y as int),
        r@.len() == 1 + if abs_diff(start.x as int, end.x as int)
            >= abs_diff(start.y as int, end.y as int) {
            abs_diff(start.x as int, end.x as int)
        } else {
            abs_diff(start.y as int, end.y as int)
        },
        r@[0] == start,
        r@[r@.len() - 1] == end,
{
    let line = embedded_graphics::primitives::Line::new(
        embedded_graphics::prelude::Point::new(start.x, start.y),
        embedded_graphics::prelude::Point::new(end.x, end.y),
    );
    embedded_graphics::prelude::PointsIter::points(&line)
        .map(|p: embedded_graphics::prelude::Point| Point { x: p.x, y: p.y })
        .collect()
}

/// Progress of one animation: frames already produced out of the
/// total frame supply.
#[derive(Clone, Copy, Debug, PartialEq, Eq, Structural)]
pub struct FrameData {
    pub frame_index: usize,
    pub frame_count: usize,
}

/// One produced frame: a rectangle to draw, or nothing (the animation
/// is exhausted or the slot is empty).
#[derive(Clone, Copy, Debug, PartialEq, Eq, Structural)]
pub enum FrameType {
    Rectangle(Rect),
    Empty,
}

/// A cursor gliding between two points: a precomputed discrete pixel
/// path plus the rectangle redrawn at each path point.
#[derive(Debug)]
pub struct CursorMove {
    pub start: Point,
    pub end: Point,
    pub frame_data: FrameData,
    pub cursor_rect: Rect,
    pub path: Vec<Point>,
}

/// The dimension a path coordinate yields for the cursor rectangle; a
/// negative coordinate yields a zero dimension.
pub open spec fn dim_of(c: int) -> u32
    recommends
        c <= u32::MAX,
{
    if c < 0 {
        0u32
    } else {
        c as u32
    }
}

/// The size the cursor rectangle takes at path point `p`.
pub open spec fn size_at(p: Point) -> Size {
    Size { width: dim_of(p.x as int), height: dim_of(p.y as int) }
}

/// One tick of a cursor animation: while frames remain, the cursor
/// rectangle is resized to the next path point and that rectangle is
/// the frame; an exhausted cursor is unchanged and yields no frame.
pub open spec fn cursor_step(c: CursorMove) -> (CursorMove, FrameType) {
    if c.frame_data.frame_index < c.frame_data.frame_count {
        let rect = Rect {
            top_left: c.cursor_rect.top_left,
            size: size_at(c.path@[c.frame_data.frame_index as int]),
        };
        let advanced = CursorMove {
            start: c.start,
            end: c.end,
            frame_data: FrameData {
                frame_index: (c.frame_data.frame_index + 1) as usize,
                frame_count: c.frame_data.frame_count,
            },
            cursor_rect: rect,
            path: c.path,
        };
        (advanced, FrameType::Rectangle(rect))
    } else {
        (c, FrameType::Empty)
    }
}

impl CursorMove {
    /// The frame counter never passes the frame supply, which equals
    /// the path's point count.
    pub open spec fn wf(self) -> bool {
        &&& self.frame_data.frame_index <= self.frame_data.frame_count
        &&& self.frame_data.frame_count == self.path@.len()
    }

    /// A cursor animation from `start_pos` to `end_pos`: the frame
    /// supply is the point count of the rasterised line between them,
    /// and the cursor rectangle starts as the span from the origin to
    /// `start_pos`.
    pub fn initialize(start_pos: Point, end_pos: Point) -> (c: CursorMove)
        requires
            start_pos.in_range(),
            end_pos.in_range(),
        ensures
            c.wf(),
            c.start == start_pos,
            c.end == end_pos,
            c.frame_data.frame_index == 0,
            c.frame_data.frame_count == c.path@.len(),
            c.cursor_rect == spanning_rect(Point { x: 0, y: 0 }, start_pos),
            c.path@.map_values(|p: Point| (p.x as int, p.y as int))
                == line_path(start_pos.x as int, start_pos.y as int, end_pos.x as int, end_pos.y as int),
            c.path@.len() == 1 + if abs_diff(start_pos.x as int, end_pos.x as int)
                >= abs_diff(start_pos.y as int, end_pos.y as int) {
                abs_diff(start_pos.x as int, end_pos.x as int)
            } else {
                abs_diff(start_pos.y as int, end_pos.y as int)
            },
            c.path@[0] == start_pos,
            c.path@[c.path@.len() - 1] == end_pos,
    {
        let cursor = Rect::with_corners(Point::zero(), start_pos);
        let path = line_points(start_pos, end_pos);
        let frame_count: usize = path.len();
        let frame_data = FrameData { frame_index: 0, frame_count };

        CursorMove { start: start_pos, end: end_pos, cursor_rect: cursor, frame_data, path }
    }

    /// Produces the next frame: the cursor rectangle resized to the
    /// next path point, or no frame once the supply is exhausted.
    pub fn get_frame(&mut self) -> (frame: FrameType)
        requires
            old(self).wf(),
        ensures
            final(self).wf(),
            (*final(self), frame) == cursor_step(*old(self)),
    {
        if self.frame_data.frame_index < self.frame_data.frame_count {
            let position: Point = self.path[self.frame_data.frame_index];

            let width: u32 = if position.x < 0 {
                0
            } else {
                position.x as u32
            };
            let height: u32 = if position.y < 0 {
                0
            } else {
                position.y as u32
            };
            self.cursor_rect = self.cursor_rect.resized_top_left(Size::new(width, height));

            self.frame_data.frame_index = self.frame_data.frame_index + 1;
            FrameType::Rectangle(self.cursor_rect)
        } else {
            FrameType::Empty
        }
    }
}

/// An animation, or the empty slot marker.
#[derive(Debug)]
pub enum Animation {
    Cursor(CursorMove),
    Empty,
}

/// One tick of an animation: an empty animation yields no frame and
/// stays empty; a cursor ticks by [`cursor_step`].
pub open spec fn animation_step(a: Animation) -> (Animation, FrameType) {
    match a {
        Animation::Cursor(c) => {
            let (advanced, frame) = cursor_step(c);
            (Animation::Cursor(advanced), frame)
        },
        Animation::Empty => (Animation::Empty, FrameType::Empty),
    }
}

/// One tick of a pool slot: as [`animation_step`], except that a slot
/// whose animation yields no frame resets to empty.
pub open spec fn slot_step(a: Animation) -> (Animation, FrameType) {
    let (advanced, frame) = animation_step(a);
    if frame is Empty {
        (Animation::Empty, FrameType::Empty)
    } else {
        (advanced, frame)
    }
}

impl Animation {
    pub open spec fn wf(self) -> bool {
        match self {
            Animation::Cursor(c) => c.wf(),
            Animation::Empty => true,
        }
    }

    /// Produces the next frame of this animation; an empty animation
    /// yields no frame.
    pub fn get_frame(&mut self) -> (frame: FrameType)
        requires
            old(self).wf(),
        ensures
            final(self).wf(),
            (*final(self), frame) == animation_step(*old(self)),
    {
        match self {
            Animation::Cursor(cursor_data) => cursor_data.get_frame(),
            Animation::Empty => FrameType::Empty,
        }
    }

    /// The progress record of this animation; an empty animation
    /// reports zero of zero frames.
    pub fn frame_data(&self) -> (d: FrameData)
        ensures
            d == match *self {
                Animation::Cursor(c) => c.frame_data,
                Animation::Empty => FrameData { frame_index: 0, frame_count: 0 },
            },
    {
        match self {
            Animation::Cursor(cursor_data) => cursor_data.frame_data,
            Animation::Empty => FrameData { frame_index: 0, frame_count: 0 },
        }
    }
}

/// The fixed pool of animation slots.
#[derive(Debug)]
pub struct AnimationState {
    pub queue: Vec<Animation>,
}

impl AnimationState {
    /// Always exactly [`MAX_ANIMATIONS`] slots, each well-formed.
    pub open spec fn wf(self) -> bool {
        &&& self.queue@.len() == MAX_ANIMATIONS
        &&& forall|i: int| 0 <= i < self.queue@.len() ==> self.queue@[i].wf()
    }

    /// A pool of empty slots.
    pub fn new() -> (s: AnimationState)
        ensures
            s.wf(),
            forall|i: int| 0 <= i < s.queue@.len() ==> s.queue@[i] is Empty,
    {
        let mut queue: Vec<Animation> = Vec::new();
        queue.push(Animation::Empty);
        queue.push(Animation::Empty);
        queue.push(Animation::Empty);
        queue.push(Animation::Empty);
        queue.push(Animation::Empty);
        queue.push(Animation::Empty);
        AnimationState { queue }
    }

    /// Places `animation` into the lowest-indexed empty slot and
    /// returns its index; a full pool changes nothing and returns
    /// nothing (the request is dropped silently, by design).
    pub fn insert(&mut self, animation: Animation) -> (idx: Option<usize>)
        requires
            old(self).wf(),
            animation.wf(),
        ensures
            final(self).wf(),
            match idx {
                Some(i) => {
                    &&& 0 <= i < old(self).queue@.len()
                    &&& old(self).queue@[i as int] is Empty
                    &&& forall|j: int| 0 <= j < i ==> !(old(self).queue@[j] is Empty)
                    &&& final(self).queue@ == old(self).queue@.update(i as int, animation)
                },
                None => {
                    &&& forall|j: int|
                        0 <= j < old(self).queue@.len() ==> !(old(self).queue@[j] is Empty)
                    &&& final(self).queue@ == old(self).queue@
                },
            },
    {
        let mut index: usize = 0;
        while index < self.queue.len()
            invariant
                old(self).wf(),
                animation.wf(),
                self.queue@ == old(self).queue@,
                index <= self.queue@.len(),
                forall|j: int| 0 <= j < index ==> !(self.queue@[j] is Empty),
            decreases self.queue@.len() - index,
        {
            if let Animation::Empty = &self.queue[index] {
                self.queue.set(index, animation);
                proof {
                    assert forall|k: int| 0 <= k < self.queue@.len() implies self.queue@[k].wf() by {
                        if k != index {
                            assert(self.queue@[k] == old(self).queue@[k]);
                        }
                    }
                }
                return Some(index);
            }
            index = index + 1;
        }
        None
    }

    /// Ticks every slot once: each occupied slot yields its next
    /// frame, and a slot whose animation is exhausted resets to
    /// empty. The i-th result is the frame of the i-th slot.
    pub fn advance_all(&mut self) -> (frames: Vec<FrameType>)
        requires
            old(self).wf(),
        ensures
            final(self).wf(),
            frames@.len() == old(self).queue@.len(),
            final(self).queue@.len() == old(self).queue@.len(),
            forall|i: int|
                0 <= i < old(self).queue@.len() ==> (final(self).queue@[i], frames@[i])
                    == slot_step(old(self).queue@[i]),
    {
        let ghost original: Seq<Animation> = self.queue@;
        let mut frames: Vec<FrameType> = Vec::new();
        let mut ticked: Vec<Animation> = Vec::new();
        let mut index: usize = 0;
        while index < MAX_ANIMATIONS
            invariant
                old(self).wf(),
                original == old(self).queue@,
                original.len() == MAX_ANIMATIONS,
                index <= MAX_ANIMATIONS,
                self.queue@ == original.skip(index as int),
                ticked@.len() == index,
                frames@.len() == index,
                forall|i: int|
                    0 <= i < index ==> (ticked@[i], frames@[i]) == slot_step(original[i]),
                forall|i: int| 0 <= i < ticked@.len() ==> ticked@[i].wf(),
            decreases MAX_ANIMATIONS - index,
        {
            let mut animation: Animation = self.queue.remove(0);
            proof {
                assert(animation == original[index as int]);
            }
            let frame: FrameType = animation.get_frame();
            match frame {
                FrameType::Empty => {
                    ticked.push(Animation::Empty);
                    frames.push(FrameType::Empty);
                },
                _ => {
                    ticked.push(animation);
                    frames.push(frame);
                },
            }
            index = index + 1;
        }
        self.queue = ticked;
        frames
    }
}

impl Default for AnimationState {
    /// A pool of empty slots.
    fn default() -> (s: AnimationState)
        ensures
            s.wf(),
            forall|i: int| 0 <= i < s.queue@.len() ==> s.queue@[i] is Empty,
    {
        AnimationState::new()
    }
}

/// A sprite strip: a fixed bank of 30 raw frames, handed out one at
/// a time.
pub struct AnimatedSprite {
    pub frames: [u16; 30],
    pub frame_index: usize,
}

impl AnimatedSprite {
    pub fn new(frames: [u16; 30]) -> (s: AnimatedSprite)
        ensures
            s.frames@ == frames@,
            s.frame_index == 0,
    {
        AnimatedSprite { frames, frame_index: 0 }
    }

    /// Hands out the next raw frame of the strip.
    pub fn get_frame(&mut self) -> (frame: u16)
        requires
            old(self).frame_index < 30,
        ensures
            frame == old(self).frames@[old(self).frame_index as int],
            final(self).frames@ == old(self).frames@,
            final(self).frame_index == old(self).frame_index + 1,
    {
        let frame: u16 = self.frames[self.frame_index];
        self.frame_index = self.frame_index + 1;
        frame
    }
}

/// The slot after `k` ticks, starting from animation `a`.
pub open spec fn slot_after(a: Animation, k: nat) -> Animation
    decreases k,
{
    if k == 0 {
        a
    } else {
        slot_step(slot_after(a, (k - 1) as nat)).0
    }
}

/// The frame the `k`-th tick produces (counting from 0), starting
/// from animation `a`.
pub open spec fn frame_at(a: Animation, k: nat) -> FrameType {
    slot_step(slot_after(a, k)).1
}

/// After `k <= N` ticks a fresh cursor animation with frame supply
/// `N` still occupies its slot, `k` frames in.
pub proof fn lemma_cursor_slot_progress(c: CursorMove, k: nat)
    requires
        c.wf(),
        c.frame_data.frame_index == 0,
        k <= c.frame_data.frame_count,
    ensures
        slot_after(Animation::Cursor(c), k) matches Animation::Cursor(c2) && {
            &&& c2.wf()
            &&& c2.frame_data.frame_index == k
            &&& c2.frame_data.frame_count == c.frame_data.frame_count
            &&& c2.path == c.path
        },
    decreases k,
{
    if k > 0 {
        lemma_cursor_slot_progress(c, (k - 1) as nat);
    }
}

/// A fresh cursor animation with a frame supply of `N` produces a
/// frame on exactly its first `N` ticks: the `N`-th tick (counting
/// from 0) produces nothing and resets the slot to empty, and every
/// later tick leaves the slot empty and produces nothing.
pub proof fn lemma_animation_frame_supply(c: CursorMove, k: nat)
    requires
        c.wf(),
        c.frame_data.frame_index == 0,
    ensures
        k < c.frame_data.frame_count ==> frame_at(Animation::Cursor(c), k) is Rectangle,
        k == c.frame_data.frame_count ==> frame_at(Animation::Cursor(c), k) is Empty
            && slot_after(Animation::Cursor(c), (k + 1) as nat) is Empty,
        k > c.frame_data.frame_count ==> slot_after(Animation::Cursor(c), k) is Empty
            && frame_at(Animation::Cursor(c), k) is Empty,
    decreases k,
{
    if k <= c.frame_data.frame_count {
        lemma_cursor_slot_progress(c, k);
    } else {
        lemma_animation_frame_supply(c, (k - 1) as nat);
    }
}

/// No slot of the pool is empty.
pub open spec fn no_empty_slot(q: Seq<Animation>) -> bool {
    forall|j: int| 0 <= j < q.len() ==> !(q[j] is Empty)
}

/// `i` is the lowest-indexed empty slot of the pool.
pub open spec fn is_first_empty(q: Seq<Animation>, i: int) -> bool {
    &&& 0 <= i < q.len()
    &&& q[i] is Empty
    &&& forall|j: int| 0 <= j < i ==> !(q[j] is Empty)
}

/// The frames one tick of every pool slot yields, in slot order.
pub open spec fn ticked_frames(q: Seq<Animation>) -> Seq<FrameType> {
    Seq::new(q.len(), |k: int| slot_step(q[k]).1)
}

/// Every produced frame is empty.
pub open spec fn all_frames_empty(frames: Seq<FrameType>) -> bool {
    forall|i: int| 0 <= i < frames.len() ==> frames[i] is Empty
}

/// The draw commands for one tick's frames: one rectangle per
/// non-empty frame, in slot order.
pub open spec fn frame_commands(frames: Seq<FrameType>) -> Seq<crate::draw_panels::DrawCommand>
    decreases frames.len(),
{
    if frames.len() == 0 {
        Seq::empty()
    } else {
        let front = frame_commands(frames.drop_last());
        match frames.last() {
            FrameType::Rectangle(r) => front.push(crate::draw_panels::DrawCommand::FrameRect(r)),
            FrameType::Empty => front,
        }
    }
}

} // verus!
