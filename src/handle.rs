use vstd::prelude::*;

use crate::point::Point;

verus! {

/// Drawn radius of an anchor that the pointer leaves alone (6.0 as `f32` bits).
pub const STILL_HANDLE_RADIUS: u32 = 0x40c0_0000;

/// Drawn radius of a hovered or selected anchor, and the distance within which
/// the pointer hovers over an anchor (8.0 as `f32` bits).
pub const HOVER_HANDLE_RADIUS: u32 = 0x4100_0000;

/// How an anchor currently reacts to the pointer.
#[derive(Clone, Copy, Debug, PartialEq, Eq, Structural)]
pub enum HandleState {
    Still,
    Hover,
    Selected,
}

/// The state an anchor moves to after one pointer event.
pub open spec fn next_state(state: HandleState, hovered: bool, pressed: bool) -> HandleState {
    if pressed && (state == HandleState::Selected || state == HandleState::Hover) {
        HandleState::Selected
    } else if hovered && !pressed {
        HandleState::Hover
    } else {
        HandleState::Still
    }
}

/// The drawn radius that goes with a state.
pub open spec fn radius_of(state: HandleState) -> u32 {
    if state == HandleState::Still {
        STILL_HANDLE_RADIUS
    } else {
        HOVER_HANDLE_RADIUS
    }
}

/// What the library knows of an anchor.
pub struct HandleView {
    pub pos: Point,
    pub color: (u8, u8, u8),
    pub state: HandleState,
}

/// The anchor `v` after a pointer event at `pointer`, which lies at distance
/// `dist` from the anchor, with the primary button held down or not.
pub open spec fn after_pointer(v: HandleView, pointer: Point, dist: u32, pressed: bool) -> HandleView {
    let state = next_state(v.state, dist <= HOVER_HANDLE_RADIUS, pressed);
    HandleView {
        pos: if state == HandleState::Selected { pointer } else { v.pos },
        color: v.color,
        state,
    }
}

/// The anchor `v` moved to `pos`.
pub open spec fn moved_to(v: HandleView, pos: Point) -> HandleView {
    HandleView { pos, color: v.color, state: v.state }
}

/// A draggable end point of chains.
#[derive(Clone, Copy, Debug)]
pub struct Handle {
    pos: Point,
    color: (u8, u8, u8),
    state: HandleState,
}

impl View for Handle {
    type V = HandleView;

    closed spec fn view(&self) -> HandleView {
        HandleView { pos: self.pos, color: self.color, state: self.state }
    }
}

impl Handle {
    /// A still anchor at `pos`.
    pub fn new(pos: Point, color: (u8, u8, u8)) -> (r: Handle)
        ensures
            r@ == (HandleView { pos, color, state: HandleState::Still }),
    {
        Handle { pos, color, state: HandleState::Still }
    }

    pub fn pos(&self) -> (r: Point)
        ensures
            r == self@.pos,
    {
        self.pos
    }

    pub fn set_pos(&mut self, pos: Point)
        ensures
            final(self)@ == moved_to(old(self)@, pos),
    {
        self.pos = pos;
    }

    pub fn color(&self) -> (r: (u8, u8, u8))
        ensures
            r == self@.color,
    {
        self.color
    }

    pub fn state(&self) -> (r: HandleState)
        ensures
            r == self@.state,
    {
        self.state
    }

    pub fn is_selected(&self) -> (r: bool)
        ensures
            r == (self@.state == HandleState::Selected),
    {
        self.state == HandleState::Selected
    }

    /// The radius to draw the anchor with, as `f32` bits.
    pub fn radius(&self) -> (r: u32)
        ensures
            r == radius_of(self@.state),
    {
        if self.state == HandleState::Still {
            STILL_HANDLE_RADIUS
        } else {
            HOVER_HANDLE_RADIUS
        }
    }

    /// Moves the anchor through its state machine for a pointer event at
    /// `pointer`, whose distance from the anchor is `dist` (as `f32` bits),
    /// with the primary button held down or not. A selected anchor follows
    /// the pointer.
    pub fn apply_mouse_moved(&mut self, pointer: Point, dist: u32, pressed: bool)
        ensures
            final(self)@ == after_pointer(old(self)@, pointer, dist, pressed),
    {
        let hovered = dist <= HOVER_HANDLE_RADIUS;
        self.state = match self.state {
            HandleState::Selected if pressed => HandleState::Selected,
            HandleState::Hover if pressed => HandleState::Selected,
            _ => {
                if hovered && !pressed {
                    HandleState::Hover
                } else {
                    HandleState::Still
                }
            },
        };
        if self.state == HandleState::Selected {
            self.pos = pointer;
        }
    }
}

/// An anchor that starts still is hovered by a pointer within the hover
/// radius with the button up; pressing the button there selects it and it
/// moves onto the pointer; releasing the button leaves it hovered or still,
/// by its distance to the pointer, and never selected.
pub proof fn lemma_hover_select_release(v: HandleView, pointer: Point, dist: u32, dist_after: u32)
    requires
        v.state == HandleState::Still,
        dist <= HOVER_HANDLE_RADIUS,
    ensures
        after_pointer(v, pointer, dist, false).state == HandleState::Hover,
        after_pointer(v, pointer, dist, false).pos == v.pos,
        after_pointer(after_pointer(v, pointer, dist, false), pointer, dist, true).state
            == HandleState::Selected,
        after_pointer(after_pointer(v, pointer, dist, false), pointer, dist, true).pos == pointer,
        ({
            let released = after_pointer(
                after_pointer(after_pointer(v, pointer, dist, false), pointer, dist, true),
                pointer,
                dist_after,
                false,
            );
            &&& released.state != HandleState::Selected
            &&& released.state == (if dist_after <= HOVER_HANDLE_RADIUS {
                HandleState::Hover
            } else {
                HandleState::Still
            })
            &&& released.pos == pointer
        }),
{
}

} // verus!
