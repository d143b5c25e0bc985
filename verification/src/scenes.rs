//! Scenes: the UI tree shown between timer renders, and the scene
//! manager that owns the animation pool.
//!
//! UI nodes form a flat arena: elements sit in one list and refer to
//! each other by index, so moving the cursor is an index update, with
//! no back-references.

use vstd::prelude::*;
use crate::animations::{
    all_frames_empty, frame_commands, is_first_empty, no_empty_slot, slot_step, ticked_frames,
    AnimationState, FrameType,
};
use crate::draw_panels::{
    is_ascii_text, payload_wf, placeholder_text, time_commands_match, DrawCommand, Panel,
    PanelPosition, Payload,
};
use crate::geometry::Rect;

verus! {

/// Which scene the UI shows.
#[derive(Clone, Copy, Debug, PartialEq, Eq, Structural)]
pub enum Scene {
    ConfigTaro,
    ConfigTaroPlus,
    ConfigCountingUp,
}

impl Default for Scene {
    fn default() -> (s: Scene)
        ensures
            s is ConfigTaro,
    {
        Scene::ConfigTaro
    }
}

/// What the cursor can do to the focused UI element.
#[derive(Clone, Copy, Debug, PartialEq, Eq, Structural)]
pub enum UIAction {
    Back,
    Select,
    MoveBack,
    MoveNext,
}

/// A UI element that reacts to cursor actions.
pub trait UINode: Sized {
    /// The well-formedness this node maintains.
    spec fn node_wf(&self) -> bool;

    /// The actions this node accepts in its current state.
    spec fn action_ok(&self, action: UIAction) -> bool;

    /// The node's bounding rectangle.
    spec fn position_spec(&self) -> Rect;

    /// The node and scene that applying `action` yields.
    spec fn action_spec(&self, scene: SceneData, action: UIAction) -> (Self, SceneData);

    fn get_position(&self) -> (r: Rect)
        ensures
            r == self.position_spec(),
    ;

    fn handle_action(&mut self, scene: &mut SceneData, action: UIAction)
        requires
            old(self).node_wf(),
            old(self).action_ok(action),
        ensures
            final(self).node_wf(),
            (*final(self), *final(scene)) == old(self).action_spec(*old(scene), action),
    ;
}

/// A single-digit spinner: select and back move the cursor to the
/// neighbouring element, the move actions step the digit.
#[derive(Clone, Copy, Debug, PartialEq, Eq, Structural)]
pub struct DigitsElement {
    pub position: Rect,
    pub current_digit: u8,
    pub next_element: u8,
    pub prev_element: u8,
}

impl UINode for DigitsElement {
    /// The digit stays in its single-decimal range.
    open spec fn node_wf(&self) -> bool {
        self.current_digit <= 9
    }

    open spec fn action_ok(&self, action: UIAction) -> bool {
        true
    }

    open spec fn position_spec(&self) -> Rect {
        self.position
    }

    open spec fn action_spec(&self, scene: SceneData, action: UIAction) -> (Self, SceneData) {
        match action {
            UIAction::MoveBack => (
                DigitsElement {
                    current_digit: if self.current_digit == 0 {
                        8u8
                    } else {
                        (self.current_digit - 1) as u8
                    },
                    ..*self
                },
                scene,
            ),
            UIAction::MoveNext => (
                DigitsElement {
                    current_digit: if self.current_digit == 9 {
                        1u8
                    } else {
                        (self.current_digit + 1) as u8
                    },
                    ..*self
                },
                scene,
            ),
            UIAction::Select => (
                *self,
                SceneData { cursor_index: self.next_element, ..scene },
            ),
            UIAction::Back => (
                *self,
                SceneData { cursor_index: self.prev_element, ..scene },
            ),
        }
    }

    fn get_position(&self) -> (r: Rect) {
        self.position
    }

    fn handle_action(&mut self, scene: &mut SceneData, action: UIAction) {
        match action {
            UIAction::MoveBack => {
                if self.current_digit == 0 {
                    self.current_digit = 9;
                }
                self.current_digit = self.current_digit - 1;
            },
            UIAction::MoveNext => {
                if self.current_digit == 9 {
                    self.current_digit = 0;
                }
                self.current_digit = self.current_digit + 1;
            },
            UIAction::Select => {
                scene.cursor_index = self.next_element;
            },
            UIAction::Back => {
                scene.cursor_index = self.prev_element;
            },
        }
    }
}

/// One element of a scene's flat arena.
#[derive(Debug)]
pub enum UIType {
    Menu(),
    Clickable(crate::clickable::ClickableElement),
    Digits(DigitsElement),
    TextBox,
}

/// A scene: which one it is, its elements in a flat arena, and the
/// index of the element the cursor is on.
#[derive(Debug)]
pub struct SceneData {
    pub scene: Scene,
    pub elements: Vec<UIType>,
    pub cursor_index: u8,
}

impl Default for SceneData {
    /// The taro configuration scene: ten empty text boxes, cursor on
    /// the first.
    fn default() -> (d: SceneData)
        ensures
            d.scene is ConfigTaro,
            d.cursor_index == 0,
            d.elements@.len() == 10,
            forall|i: int| 0 <= i < d.elements@.len() ==> d.elements@[i] is TextBox,
    {
        let mut elements: Vec<UIType> = Vec::new();
        let mut count: usize = 0;
        while count < 10
            invariant
                count <= 10,
                elements@.len() == count,
                forall|i: int| 0 <= i < elements@.len() ==> elements@[i] is TextBox,
            decreases 10 - count,
        {
            elements.push(UIType::TextBox);
            count = count + 1;
        }
        SceneData { scene: Scene::ConfigTaro, elements, cursor_index: 0 }
    }
}

/// The owner of the current scene and the animation pool, and the
/// render side's decision maker: it turns accepted panels into plain
/// draw commands.
#[derive(Debug)]
pub struct SceneManager {
    pub current_scene: SceneData,
    pub playing_animation: bool,
    pub animation_queue: AnimationState,
}

impl SceneManager {
    pub open spec fn wf(self) -> bool {
        self.animation_queue.wf()
    }

    /// Ticks every pool slot once and reports each slot's frame, in
    /// slot order; exhausted slots reset to empty.
    pub fn play_next(&mut self) -> (frames: Vec<FrameType>)
        requires
            old(self).wf(),
        ensures
            final(self).wf(),
            final(self).current_scene == old(self).current_scene,
            final(self).playing_animation == old(self).playing_animation,
            frames@.len() == old(self).animation_queue.queue@.len(),
            final(self).animation_queue.queue@.len() == old(self).animation_queue.queue@.len(),
            forall|i: int|
                0 <= i < old(self).animation_queue.queue@.len() ==> (
                    final(self).animation_queue.queue@[i],
                    frames@[i],
                ) == slot_step(old(self).animation_queue.queue@[i]),
    {
        self.animation_queue.advance_all()
    }

    /// Ticks the pool and returns the draw commands for the produced
    /// frames; when every slot reports empty in the same tick, the
    /// playing flag clears.
    pub fn render_next_frame(&mut self) -> (cmds: Vec<DrawCommand>)
        requires
            old(self).wf(),
        ensures
            final(self).wf(),
            final(self).current_scene == old(self).current_scene,
            final(self).animation_queue.queue@.len() == old(self).animation_queue.queue@.len(),
            forall|k: int|
                0 <= k < old(self).animation_queue.queue@.len()
                    ==> final(self).animation_queue.queue@[k] == slot_step(
                    old(self).animation_queue.queue@[k],
                ).0,
            cmds@ == frame_commands(ticked_frames(old(self).animation_queue.queue@)),
            final(self).playing_animation == (
            if all_frames_empty(ticked_frames(old(self).animation_queue.queue@)) {
                false
            } else {
                old(self).playing_animation
            }),
    {
        let ghost original: Seq<crate::animations::Animation> = self.animation_queue.queue@;
        let frames: Vec<FrameType> = self.play_next();
        proof {
            assert forall|k: int| 0 <= k < original.len() implies self.animation_queue.queue@[k]
                == slot_step(original[k]).0 && frames@[k] == slot_step(original[k]).1 by {
                assert((self.animation_queue.queue@[k], frames@[k]) == slot_step(original[k]));
            }
            assert(frames@ =~= ticked_frames(original));
        }
        let ghost mid: SceneManager = *self;

        let mut cmds: Vec<DrawCommand> = Vec::new();
        let mut empty_count: u8 = 0;
        let mut index: usize = 0;
        while index < frames.len()
            invariant
                *self == mid,
                index <= frames@.len(),
                frames@.len() == 6,
                cmds@ == frame_commands(frames@.take(index as int)),
                empty_count <= index,
                (empty_count as int == index as int) <==> all_frames_empty(
                    frames@.take(index as int),
                ),
            decreases frames@.len() - index,
        {
            let frame: FrameType = frames[index];
            proof {
                assert(frames@.take(index as int + 1).drop_last() =~= frames@.take(index as int));
                assert(frames@.take(index as int + 1).last() == frames@[index as int]);
            }
            match frame {
                FrameType::Rectangle(rect) => {
                    cmds.push(DrawCommand::FrameRect(rect));
                    proof {
                        assert(!all_frames_empty(frames@.take(index as int + 1)));
                    }
                },
                FrameType::Empty => {
                    empty_count = empty_count + 1;
                    proof {
                        if all_frames_empty(frames@.take(index as int)) {
                            assert forall|j: int|
                                0 <= j < index as int + 1 implies (#[trigger] frames@.take(
                                index as int + 1,
                            )[j]) is Empty by {
                                assert(frames@.take(index as int + 1)[j] == frames@[j]);
                                if j < index as int {
                                    assert(frames@.take(index as int)[j] == frames@[j]);
                                }
                            }
                        }
                    }
                },
            }
            index = index + 1;
        }
        proof {
            assert(frames@.take(frames@.len() as int) =~= frames@);
        }

        if empty_count == 6 {
            self.playing_animation = false;
        }
        proof {
            assert forall|k: int|
                0 <= k < original.len() implies self.animation_queue.queue@[k] == slot_step(
                original[k],
            ).0 by {
                assert(self.animation_queue.queue@[k] == mid.animation_queue.queue@[k]);
                assert((mid.animation_queue.queue@[k], frames@[k]) == slot_step(original[k]));
            }
        }
        cmds
    }

    /// Turns one accepted panel into draw commands. A time label is
    /// drawn as seven-segment text (with a placeholder when the bytes
    /// are not plain text) plus the divider for its region; an
    /// animation payload occupies the first empty pool slot — or is
    /// dropped silently when the pool is full — and the pool then
    /// ticks once; scene changes and empty payloads draw nothing.
    pub fn handle_payload(&mut self, panel: Panel) -> (cmds: Vec<DrawCommand>)
        requires
            old(self).wf(),
            payload_wf(panel.1),
        ensures
            final(self).wf(),
            final(self).current_scene == old(self).current_scene,
            panel.1 matches Payload::Time(bytes) ==> {
                &&& *final(self) == *old(self)
                &&& time_commands_match(cmds@, panel.0, bytes@)
            },
            panel.1 is NewScene || panel.1 is Empty ==> {
                &&& *final(self) == *old(self)
                &&& cmds@ == Seq::<DrawCommand>::empty()
            },
            panel.1 matches Payload::Animate(a) ==> {
                &&& (no_empty_slot(old(self).animation_queue.queue@) ==> {
                    &&& final(self).animation_queue.queue@ == old(self).animation_queue.queue@
                    &&& final(self).playing_animation == old(self).playing_animation
                    &&& cmds@ == Seq::<DrawCommand>::empty()
                })
                &&& (forall|i: int|
                    is_first_empty(old(self).animation_queue.queue@, i) ==> {
                        let inserted = old(self).animation_queue.queue@.update(i, a);
                        &&& final(self).animation_queue.queue@.len() == inserted.len()
                        &&& (forall|k: int|
                            0 <= k < inserted.len()
                                ==> final(self).animation_queue.queue@[k] == slot_step(
                                inserted[k],
                            ).0)
                        &&& cmds@ == frame_commands(ticked_frames(inserted))
                        &&& final(self).playing_animation == !all_frames_empty(
                            ticked_frames(inserted),
                        )
                    })
            },
    {
        let Panel(position, payload) = panel;
        match payload {
            Payload::Time(bytes) => {
                let mut cmds: Vec<DrawCommand> = Vec::new();
                let show_segment: bool = match position {
                    PanelPosition::Top | PanelPosition::Bottom => true,
                    _ => false,
                };
                if show_segment {
                    let msg: Vec<u8> = label_message(bytes);
                    cmds.push(DrawCommand::Segmented(position, msg));
                }
                cmds.push(DrawCommand::Divider(position.session_state()));
                cmds
            },
            Payload::Animate(animation) => {
                let ghost original: Seq<crate::animations::Animation> =
                    self.animation_queue.queue@;
                let idx: Option<usize> = self.animation_queue.insert(animation);
                match idx {
                    Some(slot) => {
                        self.playing_animation = true;
                        let cmds: Vec<DrawCommand> = self.render_next_frame();
                        proof {
                            assert forall|i: int|
                                is_first_empty(original, i) implies i == slot as int by {
                                if i < slot as int {
                                    assert(!(original[i] is Empty));
                                } else if i > slot as int {
                                    assert(!(original[slot as int] is Empty));
                                }
                            }
                        }
                        cmds
                    },
                    None => Vec::new(),
                }
            },
            Payload::NewScene(_) => Vec::new(),
            Payload::Empty => Vec::new(),
        }
    }
}

impl Default for SceneManager {
    /// The default scene, no animation playing, an empty pool.
    fn default() -> (m: SceneManager)
        ensures
            m.wf(),
            m.current_scene.scene is ConfigTaro,
            m.current_scene.cursor_index == 0,
            !m.playing_animation,
            forall|i: int|
                0 <= i < m.animation_queue.queue@.len() ==> m.animation_queue.queue@[i] is Empty,
    {
        SceneManager {
            current_scene: SceneData::default(),
            playing_animation: false,
            animation_queue: AnimationState::new(),
        }
    }
}

/// The bytes drawn for a label: the label itself when it is plain
/// text, the placeholder otherwise.
fn label_message(bytes: [u8; 20]) -> (msg: Vec<u8>)
    ensures
        msg@ == (if is_ascii_text(bytes@) {
            bytes@
        } else {
            placeholder_text()
        }),
{
    let mut ascii: bool = true;
    let mut index: usize = 0;
    while index < 20
        invariant
            index <= 20,
            ascii <==> (forall|j: int| 0 <= j < index ==> bytes@[j] < 0x80),
        decreases 20 - index,
    {
        if bytes[index] >= 0x80 {
            ascii = false;
        }
        index = index + 1;
    }

    let mut msg: Vec<u8> = Vec::new();
    if ascii {
        let mut i: usize = 0;
        while i < 20
            invariant
                i <= 20,
                msg@ =~= bytes@.take(i as int),
            decreases 20 - i,
        {
            msg.push(bytes[i]);
            i = i + 1;
        }
        proof {
            assert(msg@ =~= bytes@);
        }
    } else {
        msg.push(0x65);
        msg.push(0x72);
        msg.push(0x72);
        msg.push(0x6f);
        msg.push(0x72);
        proof {
            assert(msg@ =~= placeholder_text());
        }
    }
    msg
}

} // verus!
