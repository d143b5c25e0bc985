//! A clickable counter element of the UI arena.

use vstd::prelude::*;
use crate::geometry::Rect;
use crate::scenes::{SceneData, UIAction, UINode};

verus! {

/// A counter: select increments its value, the other actions move
/// the cursor to the neighbouring element.
#[derive(Clone, Copy, Debug, PartialEq, Eq, Structural)]
pub struct ClickableElement {
    pub position: Rect,
    pub value: u8,
    pub next_element: u8,
    pub prev_element: u8,
}

impl UINode for ClickableElement {
    open spec fn node_wf(&self) -> bool {
        true
    }

    /// The counter cannot go past its byte range.
    open spec fn action_ok(&self, action: UIAction) -> bool {
        action is Select ==> self.value < 255
    }

    open spec fn position_spec(&self) -> Rect {
        self.position
    }

    open spec fn action_spec(&self, scene: SceneData, action: UIAction) -> (Self, SceneData) {
        match action {
            UIAction::MoveBack => (
                *self,
                SceneData { cursor_index: self.prev_element, ..scene },
            ),
            UIAction::MoveNext => (
                *self,
                SceneData { cursor_index: self.next_element, ..scene },
            ),
            UIAction::Select => (
                ClickableElement { value: (self.value + 1) as u8, ..*self },
                scene,
            ),
            UIAction::Back => (
                *self,
                SceneData { cursor_index: self.prev_element, ..scene },
            ),
        }
    }

    fn get_position(&self) -> (r: Rect) {
        self.position
    }

    fn handle_action(&mut self, scene: &mut SceneData, action: UIAction) {
        match action {
            UIAction::MoveBack => {
                scene.cursor_index = self.prev_element;
            },
            UIAction::MoveNext => {
                scene.cursor_index = self.next_element;
            },
            UIAction::Select => {
                self.value = self.value + 1;
            },
            UIAction::Back => {
                scene.cursor_index = self.prev_element;
            },
        }
    }
}

} // verus!
