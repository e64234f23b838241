//! Routing of the overlay window's input events: which handler an event
//! goes to, how it updates the Control state, and whether the window must
//! be repainted or the overlay finishes.

use crate::canvas::Pos;
use super::state::OverlayState;
use super::x11_win::{CONTROL_MASK, ctrl_held};
use super::{
    Dragging, Finish, handle_key, key_is_redo, keyed, moved, on_motion, on_press,
    on_release, press_kind, pressed, released, spec_press, Press,
};
use super::x11_win::KS_Y_LOWER;
use vstd::prelude::*;

verus! {

/// An input event of the overlay window, reduced to what the overlay reads.
#[derive(Debug, Clone, Copy, PartialEq, Eq, Structural)]
pub enum InputEvent {
    /// Part of the window must be repainted.
    Expose,
    /// A key went down, with the modifier mask at that moment.
    KeyPress { keysym: u32, mask: u16 },
    /// A key went up.
    KeyRelease { mask: u16 },
    /// A pointer button went down at `p`.
    ButtonPress { button: u8, p: Pos, mask: u16 },
    /// The pointer moved to `p`.
    Motion { p: Pos, mask: u16 },
    /// A pointer button went up at `p`.
    ButtonRelease { button: u8, p: Pos, mask: u16 },
    /// Anything else.
    Other,
}

/// What the event loop does after an event.
#[derive(Debug, Clone, Copy, PartialEq, Eq, Structural)]
pub enum Reply {
    /// Repaint the window.
    Redraw,
    /// Nothing to show.
    Quiet,
    /// End the overlay this way.
    Finish(Finish),
    /// The wheel turned (up or down) with Control held or not: the caller
    /// steps the palette color, or with Control the stroke width.
    Scroll { up: bool, ctrl: bool },
}

/// The drag in progress and where the left button last went down.
#[derive(Debug, Clone, Copy, PartialEq, Eq, Structural)]
pub struct Interaction {
    pub dragging: Dragging,
    pub press_pos: Pos,
}

impl Interaction {
    pub fn new() -> (r: Interaction)
        ensures
            r.dragging == Dragging::Idle,
            r.press_pos == (Pos { x: 0, y: 0 }),
    {
        Interaction { dragging: Dragging::Idle, press_pos: Pos { x: 0, y: 0 } }
    }
}

/// `s` with the Control state read from `mask`.
pub open spec fn with_ctrl(s: OverlayState, mask: u16) -> OverlayState {
    OverlayState { ctrl_down: mask & CONTROL_MASK != 0, ..s }
}

/// The events whose handling keeps the marker counter in range: a Control+y
/// needs a redo that can be done, a left press that places a marker needs a
/// counter below its maximum.
pub open spec fn step_allowed(s: OverlayState, ev: InputEvent) -> bool {
    match ev {
        InputEvent::KeyPress { keysym, mask } => key_is_redo(keysym, mask)
            ==> s.canvas.history().can_redo(),
        InputEvent::ButtonPress { button, p, mask } => (button == 1 && spec_press(
            with_ctrl(s, mask),
            p,
        ) is PlaceMarker) ==> s.canvas.counter < u32::MAX,
        _ => true,
    }
}

/// Whether `step` may take `ev` in state `s` (see `step_allowed`).
pub fn can_step(s: &OverlayState, ev: InputEvent) -> (r: bool)
    ensures
        r == step_allowed(*s, ev),
{
    match ev {
        InputEvent::KeyPress { keysym, mask } => {
            if keysym == KS_Y_LOWER && ctrl_held(mask) {
                s.canvas.can_redo()
            } else {
                true
            }
        },
        InputEvent::ButtonPress { button, p, mask } => {
            if button != 1 || s.canvas.counter < u32::MAX {
                return true;
            }
            !matches!(press_kind(s, ctrl_held(mask), p), Press::PlaceMarker)
        },
        _ => true,
    }
}

/// One event of the overlay loop. Only the left button presses, drags and
/// releases; the wheel (buttons 4 and 5) is handed back as a scroll; a key press goes to `handle_key`, and when it does not end the
/// overlay the Control state is taken from its mask; every pointer event
/// takes the Control state from its mask before its handler runs.
pub fn step(state: &mut OverlayState, io: &mut Interaction, ev: InputEvent) -> (r: Reply)
    requires
        step_allowed(*old(state), ev),
    ensures
        match ev {
            InputEvent::Expose => {
                &&& r == Reply::Redraw
                &&& *final(state) == *old(state)
                &&& *final(io) == *old(io)
            },
            InputEvent::KeyPress { keysym, mask } => {
                &&& *final(io) == *old(io)
                &&& match r {
                    Reply::Finish(f) => keyed(*old(state), keysym, mask, *final(state), Some(f)),
                    Reply::Redraw => {
                        &&& final(state).ctrl_down == (mask & CONTROL_MASK != 0)
                        &&& keyed(
                            *old(state),
                            keysym,
                            mask,
                            OverlayState { ctrl_down: old(state).ctrl_down, ..*final(state) },
                            None,
                        )
                    },
                    Reply::Quiet | Reply::Scroll { .. } => false,
                }
            },
            InputEvent::KeyRelease { mask } => {
                &&& r == Reply::Quiet
                &&& *final(state) == with_ctrl(*old(state), mask)
                &&& *final(io) == *old(io)
            },
            InputEvent::ButtonPress { button, p, mask } => if button == 1 {
                &&& r == Reply::Redraw
                &&& final(io).press_pos == p
                &&& pressed(with_ctrl(*old(state), mask), p, *final(state), final(io).dragging)
            } else {
                &&& r == (if button == 4 || button == 5 {
                    Reply::Scroll { up: button == 4, ctrl: mask & CONTROL_MASK != 0 }
                } else {
                    Reply::Quiet
                })
                &&& *final(state) == *old(state)
                &&& *final(io) == *old(io)
            },
            InputEvent::Motion { p, mask } => {
                &&& r == Reply::Redraw
                &&& final(io).press_pos == old(io).press_pos
                &&& moved(
                    with_ctrl(*old(state), mask),
                    old(io).dragging,
                    p,
                    *final(state),
                    final(io).dragging,
                )
            },
            InputEvent::ButtonRelease { button, p, mask } => if button == 1 {
                &&& final(io).press_pos == old(io).press_pos
                &&& match r {
                    Reply::Finish(f) => released(
                        with_ctrl(*old(state), mask),
                        old(io).dragging,
                        p,
                        old(io).press_pos,
                        *final(state),
                        final(io).dragging,
                        Some(f),
                    ),
                    Reply::Redraw => released(
                        with_ctrl(*old(state), mask),
                        old(io).dragging,
                        p,
                        old(io).press_pos,
                        *final(state),
                        final(io).dragging,
                        None,
                    ),
                    Reply::Quiet | Reply::Scroll { .. } => false,
                }
            } else {
                &&& r == Reply::Quiet
                &&& *final(state) == *old(state)
                &&& *final(io) == *old(io)
            },
            InputEvent::Other => {
                &&& r == Reply::Quiet
                &&& *final(state) == *old(state)
                &&& *final(io) == *old(io)
            },
        },
{
    match ev {
        InputEvent::Expose => Reply::Redraw,
        InputEvent::KeyPress { keysym, mask } => {
            match handle_key(state, keysym, mask) {
                Some(f) => Reply::Finish(f),
                None => {
                    state.ctrl_down = ctrl_held(mask);
                    Reply::Redraw
                },
            }
        },
        InputEvent::KeyRelease { mask } => {
            state.ctrl_down = ctrl_held(mask);
            Reply::Quiet
        },
        InputEvent::ButtonPress { button, p, mask } => {
            if button == 4 || button == 5 {
                return Reply::Scroll { up: button == 4, ctrl: ctrl_held(mask) };
            }
            if button != 1 {
                return Reply::Quiet;
            }
            io.press_pos = p;
            state.ctrl_down = ctrl_held(mask);
            io.dragging = on_press(state, p);
            Reply::Redraw
        },
        InputEvent::Motion { p, mask } => {
            state.ctrl_down = ctrl_held(mask);
            on_motion(state, &mut io.dragging, p);
            Reply::Redraw
        },
        InputEvent::ButtonRelease { button, p, mask } => {
            if button != 1 {
                return Reply::Quiet;
            }
            state.ctrl_down = ctrl_held(mask);
            match on_release(state, &mut io.dragging, p, io.press_pos) {
                Some(f) => Reply::Finish(f),
                None => Reply::Redraw,
            }
        },
        InputEvent::Other => Reply::Quiet,
    }
}

} // verus!
