//! The overlay's input handling: what a press, a motion, a release or a
//! key does to the interaction state, and which pointer glyph to show.

pub mod draft;
pub mod events;
pub mod paint;
pub mod selection;
pub mod state;
pub mod tool_buttons;
pub mod x11_win;

use crate::canvas::{Annotation, Bounds, History, Pos, ToolKind};
use draft::{Draft, is_extended, is_new_draft};
use selection::{
    SelectionEdit, Handle, spec_handle_at, spec_resize, resize_fits, handle_at, resize_rect,
    cursor_glyph_for_handle, spec_cursor_glyph,
};
use state::{Mode, OverlayState, same_frame, same_canvas};
use tool_buttons::{Hit, Strip, spec_strip_rect, spec_contains, spec_hit};
use x11_win::{XC_CROSSHAIR, XC_FLEUR, XC_HAND1, XC_LEFT_PTR};
use vstd::prelude::*;

verus! {

/// Click-versus-drag threshold, in pixels squared: a strip button fires only
/// if the pointer moved less than this between press and release.
pub const CLICK_SQ: i64 = 16;

/// What the current left-button drag is doing.
#[derive(Debug, Clone, Copy, PartialEq, Eq, Structural)]
pub enum Dragging {
    Idle,
    Region,
    Draft,
    EditResize,
    EditMove,
    Strip(Hit),
}

/// How the overlay is to end: the caller cancels, or saves/copies the
/// annotated selection and reports `UiResult::Done`.
#[derive(Debug, Clone, Copy, PartialEq, Eq, Structural)]
pub enum Finish {
    Cancel,
    Save,
    Copy,
}

/// The closed rectangle `b` holds `p` (edges included).
pub fn bounds_contains(b: Bounds, p: Pos) -> (r: bool)
    ensures
        r == b.holds(p),
{
    let px: i64 = p.x as i64;
    let py: i64 = p.y as i64;
    px >= b.x as i64 && px <= b.x as i64 + b.w as i64 && py >= b.y as i64 && py <= b.y as i64
        + b.h as i64
}

pub open spec fn clamp_int(v: int, lo: int, hi: int) -> int {
    if v < lo {
        lo
    } else if v > hi {
        hi
    } else {
        v
    }
}

/// `p` moved onto the closed rectangle `b`, coordinate by coordinate.
pub open spec fn spec_clamp_to_bounds(p: Pos, b: Bounds) -> Pos {
    Pos {
        x: clamp_int(p.x as int, b.left(), b.right()) as i32,
        y: clamp_int(p.y as int, b.top(), b.bottom()) as i32,
    }
}

pub fn clamp_to_bounds(p: Pos, b: Bounds) -> (r: Pos)
    ensures
        r == spec_clamp_to_bounds(p, b),
        b.holds(r),
{
    let px: i64 = p.x as i64;
    let py: i64 = p.y as i64;
    let right: i64 = b.x as i64 + b.w as i64;
    let bottom: i64 = b.y as i64 + b.h as i64;
    let x: i64 = if px < b.x as i64 {
        b.x as i64
    } else if px > right {
        right
    } else {
        px
    };
    let y: i64 = if py < b.y as i64 {
        b.y as i64
    } else if py > bottom {
        bottom
    } else {
        py
    };
    Pos { x: x as i32, y: y as i32 }
}

/// The strip of the current selection, if one is shown.
pub open spec fn strip_of(s: OverlayState) -> Option<Strip> {
    match s.selection {
        Some(sel) => Some(spec_strip_rect(s.width as int, s.height as int, sel)),
        None => None,
    }
}

/// What a left-button press at `p` starts.
#[derive(Debug, Clone, Copy, PartialEq, Eq, Structural)]
pub enum Press {
    /// On the tool strip: the button under the pointer, if any.
    OnStrip(Option<Hit>),
    /// Start dragging out a region.
    StartRegion,
    /// Grab a selection handle.
    Resize(Handle, Bounds),
    /// Grab the selection to move it.
    Move(Bounds),
    /// Place a numbered marker.
    PlaceMarker,
    /// Start drawing with the armed tool.
    StartDraft(ToolKind),
    /// Nothing.
    Ignore,
}

/// A press on the strip wins; then the mode decides. While annotating: a
/// handle, then moving (no tool armed, or Ctrl held), then the marker tool,
/// then drawing with the armed tool, each only inside the selection.
pub open spec fn spec_press(s: OverlayState, p: Pos) -> Press {
    if strip_of(s) is Some && spec_contains(strip_of(s)->0, p) {
        Press::OnStrip(spec_hit(strip_of(s)->0, p))
    } else if s.mode == Mode::SelectingRegion {
        Press::StartRegion
    } else if s.selection is None {
        Press::Ignore
    } else {
        let sel = s.selection->0;
        if spec_handle_at(sel, p) is Some {
            Press::Resize(spec_handle_at(sel, p)->0, sel)
        } else if sel.holds(p) && (s.canvas.tool is None || s.ctrl_down) {
            Press::Move(sel)
        } else if s.canvas.tool == Some(ToolKind::Counter) && sel.holds(p) {
            Press::PlaceMarker
        } else if s.canvas.tool is Some && sel.holds(p) {
            Press::StartDraft(s.canvas.tool->0)
        } else {
            Press::Ignore
        }
    }
}

/// The marker a press at `p` places: the next number, the current color,
/// the configured radius.
pub open spec fn marker_at(s: OverlayState, p: Pos) -> Annotation {
    Annotation::Counter {
        center: p,
        number: (s.canvas.counter + 1) as u32,
        color: s.canvas.style.color,
        radius: s.counter_radius,
    }
}

/// The canvas history after taking the next marker number and committing
/// the marker.
pub open spec fn history_with_marker(s: OverlayState, p: Pos) -> History {
    let h = s.canvas.history();
    History { done: h.done, undone: h.undone, counter: (h.counter + 1) as u32 }.push(marker_at(s, p))
}

/// What a left-button press at `p` would start, without doing it, with the
/// Control key held as `ctrl` says.
pub fn press_kind(state: &OverlayState, ctrl: bool, p: Pos) -> (r: Press)
    ensures
        r == spec_press(OverlayState { ctrl_down: ctrl, ..*state }, p),
{
    if let Some(sel) = state.selection {
        let strip = tool_buttons::strip_rect(state.width, state.height, sel);
        if tool_buttons::contains(strip, p) {
            return Press::OnStrip(tool_buttons::hit(strip, p));
        }
    }
    match state.mode {
        Mode::SelectingRegion => Press::StartRegion,
        Mode::Annotating => {
            let sel = match state.selection {
                Some(sel) => sel,
                None => {
                    return Press::Ignore;
                },
            };
            if let Some(h) = handle_at(sel, p) {
                return Press::Resize(h, sel);
            }
            let inside = bounds_contains(sel, p);
            if inside && (state.canvas.tool.is_none() || ctrl) {
                return Press::Move(sel);
            }
            if state.canvas.tool == Some(ToolKind::Counter) && inside {
                return Press::PlaceMarker;
            }
            if let Some(tool) = state.canvas.tool {
                if inside {
                    return Press::StartDraft(tool);
                }
            }
            Press::Ignore
        },
    }
}

/// What a left-button press at `p` does to state `s0`, giving `s1` and the
/// drag `d` it starts, for each case of `spec_press`.
pub open spec fn pressed(s0: OverlayState, p: Pos, s1: OverlayState, d: Dragging) -> bool {
    &&& match spec_press(s0, p) {
                Press::OnStrip(h) => {
                    &&& d == (match h {
                        Some(b) => Dragging::Strip(b),
                        None => Dragging::Idle,
                    })
                    &&& s1 == s0
                },
                Press::StartRegion => {
                    &&& d == Dragging::Region
                    &&& s1 == (OverlayState {
                        sel_drag_start: Some(p),
                        selection: None,
                        ..s0
                    })
                },
                Press::Resize(h, sel) => {
                    &&& d == Dragging::EditResize
                    &&& s1 == (OverlayState {
                        selection_edit: SelectionEdit::Resizing(h),
                        edit_drag_start: Some(p),
                        edit_rect_start: Some(sel),
                        ..s0
                    })
                },
                Press::Move(sel) => {
                    &&& d == Dragging::EditMove
                    &&& s1 == (OverlayState {
                        selection_edit: SelectionEdit::Moving,
                        edit_drag_start: Some(p),
                        edit_rect_start: Some(sel),
                        ..s0
                    })
                },
                Press::PlaceMarker => {
                    &&& d == Dragging::Idle
                    &&& same_frame(s1, s0)
                    &&& s1.draft == s0.draft
                    &&& s1.canvas.history() == history_with_marker(s0, p)
                    &&& s1.canvas.style == s0.canvas.style
                    &&& s1.canvas.tool == s0.canvas.tool
                },
                Press::StartDraft(tool) => {
                    &&& d == Dragging::Draft
                    &&& same_frame(s1, s0)
                    &&& same_canvas(s1, s0)
                    &&& is_new_draft(
                        s1.draft,
                        tool,
                        p,
                        s0.canvas.style,
                        s0.pixelate_block,
                    )
                },
                Press::Ignore => {
                    &&& d == Dragging::Idle
                    &&& s1 == s0
                },
            }
}

/// Left-button press.
pub fn on_press(state: &mut OverlayState, p: Pos) -> (d: Dragging)
    requires
        spec_press(*old(state), p) is PlaceMarker ==> old(state).canvas.counter < u32::MAX,
    ensures
        pressed(*old(state), p, *final(state), d),

{
    let ctrl = state.ctrl_down;
    match press_kind(state, ctrl, p) {
        Press::OnStrip(h) => match h {
            Some(b) => Dragging::Strip(b),
            None => Dragging::Idle,
        },
        Press::StartRegion => {
            state.sel_drag_start = Some(p);
            state.selection = None;
            Dragging::Region
        },
        Press::Resize(h, sel) => {
            state.selection_edit = SelectionEdit::Resizing(h);
            state.edit_drag_start = Some(p);
            state.edit_rect_start = Some(sel);
            Dragging::EditResize
        },
        Press::Move(sel) => {
            state.selection_edit = SelectionEdit::Moving;
            state.edit_drag_start = Some(p);
            state.edit_rect_start = Some(sel);
            Dragging::EditMove
        },
        Press::PlaceMarker => {
            let n = state.canvas.next_counter();
            let color = state.canvas.style.color;
            let radius = state.counter_radius;
            state.canvas.push(Annotation::Counter { center: p, number: n, color, radius });
            Dragging::Idle
        },
        Press::StartDraft(tool) => {
            state.draft = Draft::new(tool, p, state.canvas.style, state.pixelate_block);
            Dragging::Draft
        },
        Press::Ignore => Dragging::Idle,
    }
}

/// What the strip hover becomes with the pointer at `p`.
pub open spec fn hover_at(s: OverlayState, p: Pos) -> Option<Hit> {
    match strip_of(s) {
        Some(strip) => if spec_contains(strip, p) {
            spec_hit(strip, p)
        } else {
            None
        },
        None => None,
    }
}

/// A move of `rect` by (`dx`, `dy`) stays representable.
pub open spec fn move_fits(rect: Bounds, dx: int, dy: int) -> bool {
    i32::MIN <= rect.x + dx <= i32::MAX && i32::MIN <= rect.y + dy <= i32::MAX
}

/// The selection after pointer motion to `p` during drag `d`: a region drag
/// spans from its start to `p`; a handle drag resizes and a move drag
/// translates the rectangle grabbed at press time by the pointer's travel
/// since the press. A rectangle that would leave the coordinate range is not
/// applied.
pub open spec fn moved_selection(s: OverlayState, d: Dragging, p: Pos) -> Option<Bounds> {
    match d {
        Dragging::Region => match s.sel_drag_start {
            Some(start) => Some(Bounds::spanned(start, p)),
            None => s.selection,
        },
        Dragging::EditResize => match (s.selection_edit, s.edit_drag_start, s.edit_rect_start) {
            (SelectionEdit::Resizing(h), Some(start), Some(rect)) => if resize_fits(
                rect,
                h,
                p.x - start.x,
                p.y - start.y,
            ) {
                Some(spec_resize(rect, h, p.x - start.x, p.y - start.y))
            } else {
                s.selection
            },
            _ => s.selection,
        },
        Dragging::EditMove => match (s.edit_drag_start, s.edit_rect_start) {
            (Some(start), Some(rect)) => if move_fits(rect, p.x - start.x, p.y - start.y) {
                Some(
                    Bounds {
                        x: (rect.x + (p.x - start.x)) as i32,
                        y: (rect.y + (p.y - start.y)) as i32,
                        w: rect.w,
                        h: rect.h,
                    },
                )
            } else {
                s.selection
            },
            _ => s.selection,
        },
        _ => s.selection,
    }
}

/// What pointer motion to `p` during drag `d0` does to state `s0`, giving
/// `s1` and drag `d1`.
pub open spec fn moved(s0: OverlayState, d0: Dragging, p: Pos, s1: OverlayState, d1: Dragging) -> bool {
    &&& d1 == d0
    &&& s1.strip_hover == hover_at(s0, p)
    &&& s1.selection == moved_selection(s0, d0, p)
    &&& s1.width == s0.width
    &&& s1.height == s0.height
    &&& s1.mode == s0.mode
    &&& s1.sel_drag_start == s0.sel_drag_start
    &&& s1.selection_edit == s0.selection_edit
    &&& s1.edit_drag_start == s0.edit_drag_start
    &&& s1.edit_rect_start == s0.edit_rect_start
    &&& s1.ctrl_down == s0.ctrl_down
    &&& s1.counter_radius == s0.counter_radius
    &&& s1.pixelate_block == s0.pixelate_block
    &&& s1.canvas == s0.canvas
    &&& (d0 == Dragging::Draft && s0.draft is Some && s0.selection is Some)
                ==> s1.draft is Some && is_extended(
                s0.draft->0,
                s1.draft->0,
                spec_clamp_to_bounds(p, s0.selection->0),
            )
    &&& !(d0 == Dragging::Draft && s0.draft is Some
                && s0.selection is Some) ==> s1.draft == s0.draft
}

/// Pointer motion to `p` while `dragging`.
pub fn on_motion(state: &mut OverlayState, dragging: &mut Dragging, p: Pos)
    ensures
        moved(*old(state), *old(dragging), p, *final(state), *final(dragging)),

{
    let hover = match state.selection {
        Some(sel) => {
            let strip = tool_buttons::strip_rect(state.width, state.height, sel);
            if tool_buttons::contains(strip, p) {
                tool_buttons::hit(strip, p)
            } else {
                None
            }
        },
        None => None,
    };
    state.strip_hover = hover;
    match *dragging {
        Dragging::Region => {
            if let Some(start) = state.sel_drag_start {
                state.selection = Some(Bounds::from_two(start, p));
            }
        },
        Dragging::Draft => {
            if let Some(sel) = state.selection {
                if let Some(draft) = state.draft.as_mut() {
                    draft.extend(clamp_to_bounds(p, sel));
                }
            }
        },
        Dragging::EditResize => {
            if let (SelectionEdit::Resizing(h), Some(start), Some(rect)) = (
                state.selection_edit,
                state.edit_drag_start,
                state.edit_rect_start,
            ) {
                let dx: i64 = p.x as i64 - start.x as i64;
                let dy: i64 = p.y as i64 - start.y as i64;
                if selection::resize_fits_exec(rect, h, dx, dy) {
                    state.selection = Some(resize_rect(rect, h, dx, dy));
                }
            }
        },
        Dragging::EditMove => {
            if let (Some(start), Some(rect)) = (state.edit_drag_start, state.edit_rect_start) {
                let dx: i64 = p.x as i64 - start.x as i64;
                let dy: i64 = p.y as i64 - start.y as i64;
                let nx: i64 = rect.x as i64 + dx;
                let ny: i64 = rect.y as i64 + dy;
                if i32::MIN as i64 <= nx && nx <= i32::MAX as i64 && i32::MIN as i64 <= ny && ny
                    <= i32::MAX as i64 {
                    state.selection = Some(Bounds { x: nx as i32, y: ny as i32, w: rect.w, h: rect.h });
                }
            }
        },
        Dragging::Idle | Dragging::Strip(_) => {},
    }
}

/// The armed tool after clicking tool `t` on the strip: clicking the armed
/// tool disarms it (back to moving the frame), any other arms `t`.
pub open spec fn toggled_tool(armed: Option<ToolKind>, t: ToolKind) -> Option<ToolKind> {
    if armed == Some(t) {
        None
    } else {
        Some(t)
    }
}

/// A strip button was clicked.
pub fn apply_hit(state: &mut OverlayState, hit: Hit) -> (r: Option<Finish>)
    ensures
        match hit {
            Hit::Tool(t) => {
                &&& r is None
                &&& same_frame(*final(state), *old(state))
                &&& final(state).draft == old(state).draft
                &&& final(state).canvas.history() == old(state).canvas.history()
                &&& final(state).canvas.style == old(state).canvas.style
                &&& final(state).canvas.tool == toggled_tool(old(state).canvas.tool, t)
            },
            Hit::Save => r == Some(Finish::Save) && *final(state) == *old(state),
            Hit::Copy => r == Some(Finish::Copy) && *final(state) == *old(state),
        },
{
    match hit {
        Hit::Tool(t) => {
            state.canvas.tool = if state.canvas.tool == Some(t) {
                None
            } else {
                Some(t)
            };
            None
        },
        Hit::Save => Some(Finish::Save),
        Hit::Copy => Some(Finish::Copy),
    }
}

/// The selection is big enough to annotate: at least 4x4 pixels.
pub open spec fn big_enough(sel: Bounds) -> bool {
    sel.w >= 4 && sel.h >= 4
}

/// A strip press at `press` released at `p` is a click on `hit`: the pointer
/// travelled less than `CLICK_SQ` squared pixels and is still on that button.
pub open spec fn strip_click(s: OverlayState, hit: Hit, p: Pos, press: Pos) -> bool {
    &&& draft::dist2(p, press) < CLICK_SQ
    &&& strip_of(s) is Some
    &&& spec_hit(strip_of(s)->0, p) == Some(hit)
}

/// What a left-button release at `p` (pressed at `press`) ending drag `d0`
/// does to state `s0`, giving `s1`, drag `d1` and the way to finish `r`.
pub open spec fn released(s0: OverlayState, d0: Dragging, p: Pos, press: Pos, s1: OverlayState, d1: Dragging, r: Option<Finish>) -> bool {
    &&& d1 == Dragging::Idle
    &&& (d0 == Dragging::Region && s0.mode == Mode::SelectingRegion) ==> (
            s1.mode == Mode::Annotating && s1.selection is Some
                && big_enough(s1.selection->0)) || (s1.mode == Mode::SelectingRegion
                && s1.selection is None)
    &&& match d0 {
                Dragging::Region => {
                    &&& r is None
                    &&& s1 == (OverlayState {
                        mode: if s0.selection matches Some(sel) && big_enough(sel) {
                            Mode::Annotating
                        } else {
                            s0.mode
                        },
                        selection: if s0.selection matches Some(sel) && !big_enough(sel) {
                            None
                        } else {
                            s0.selection
                        },
                        sel_drag_start: None,
                        ..s0
                    })
                },
                Dragging::Draft => {
                    &&& r is None
                    &&& same_frame(s1, s0)
                    &&& s1.draft is None
                    &&& s1.canvas.style == s0.canvas.style
                    &&& s1.canvas.tool == s0.canvas.tool
                    &&& s1.canvas.history() == (match s0.draft {
                        Some(d) => match draft::spec_finalize(d) {
                            Some(a) => s0.canvas.history().push(a),
                            None => s0.canvas.history(),
                        },
                        None => s0.canvas.history(),
                    })
                },
                Dragging::EditResize | Dragging::EditMove => {
                    &&& r is None
                    &&& s1 == (OverlayState {
                        selection_edit: SelectionEdit::Idle,
                        edit_drag_start: None,
                        edit_rect_start: None,
                        ..s0
                    })
                },
                Dragging::Strip(hit) => if strip_click(s0, hit, p, press) {
                    match hit {
                        Hit::Tool(t) => {
                            &&& r is None
                            &&& same_frame(s1, s0)
                            &&& s1.draft == s0.draft
                            &&& s1.canvas.history() == s0.canvas.history()
                            &&& s1.canvas.style == s0.canvas.style
                            &&& s1.canvas.tool == toggled_tool(s0.canvas.tool, t)
                        },
                        Hit::Save => r == Some(Finish::Save) && s1 == s0,
                        Hit::Copy => r == Some(Finish::Copy) && s1 == s0,
                    }
                } else {
                    r is None && s1 == s0
                },
                Dragging::Idle => r is None && s1 == s0,
            }
}

/// Left-button release at `p`; `press` is where the button went down.
pub fn on_release(state: &mut OverlayState, dragging: &mut Dragging, p: Pos, press: Pos) -> (r:
    Option<Finish>)
    ensures
        released(*old(state), *old(dragging), p, press, *final(state), *final(dragging), r),

{
    let d = *dragging;
    *dragging = Dragging::Idle;
    match d {
        Dragging::Region => {
            if let Some(sel) = state.selection {
                if sel.w >= 4 && sel.h >= 4 {
                    state.mode = Mode::Annotating;
                } else {
                    state.selection = None;
                }
            }
            state.sel_drag_start = None;
        },
        Dragging::Draft => {
            if let Some(dr) = state.draft.take() {
                if let Some(a) = dr.finalize() {
                    state.canvas.push(a);
                }
            }
        },
        Dragging::EditResize | Dragging::EditMove => {
            state.selection_edit = SelectionEdit::Idle;
            state.edit_drag_start = None;
            state.edit_rect_start = None;
        },
        Dragging::Strip(hit) => {
            if draft::dist2_exec(p, press) < CLICK_SQ as u128 {
                if let Some(sel) = state.selection {
                    let strip = tool_buttons::strip_rect(state.width, state.height, sel);
                    if tool_buttons::hit(strip, p) == Some(hit) {
                        return apply_hit(state, hit);
                    }
                }
            }
        },
        Dragging::Idle => {},
    }
    None
}

/// The key is Control+y.
pub open spec fn key_is_redo(ks: u32, mask: u16) -> bool {
    ks == x11_win::KS_Y_LOWER && (mask & x11_win::CONTROL_MASK != 0)
}

/// What a key press with keysym `ks` and modifier mask `mask` does to state
/// `s0`, giving `s1` and the way to finish `r`.
pub open spec fn keyed(s0: OverlayState, ks: u32, mask: u16, s1: OverlayState, r: Option<Finish>) -> bool {
    &&& ks == x11_win::KS_ESCAPE ==> r == Some(Finish::Cancel) && s1 == s0
    &&& (ks == x11_win::KS_RETURN || ks == x11_win::KS_KP_ENTER) ==> r == Some(Finish::Save)
                && s1 == s0
    &&& ({
                let other = ks != x11_win::KS_ESCAPE && ks != x11_win::KS_RETURN && ks
                    != x11_win::KS_KP_ENTER;
                let ctrl = mask & x11_win::CONTROL_MASK != 0;
                &&& (other && ctrl && ks == x11_win::KS_C_LOWER) ==> r == Some(Finish::Copy)
                    && s1 == s0
                &&& (other && ctrl && ks == x11_win::KS_Z_LOWER) ==> r is None && same_frame(
                    s1,
                    s0,
                ) && s1.draft == s0.draft && s1.canvas.history()
                    == s0.canvas.history().undo() && s1.canvas.style == s0.canvas.style && s1.canvas.tool == s0.canvas.tool
                &&& (other && ctrl && ks == x11_win::KS_Y_LOWER) ==> r is None && same_frame(
                    s1,
                    s0,
                ) && s1.draft == s0.draft && s1.canvas.history()
                    == s0.canvas.history().redo() && s1.canvas.style == s0.canvas.style && s1.canvas.tool == s0.canvas.tool
                &&& (other && ctrl && ks != x11_win::KS_C_LOWER && ks != x11_win::KS_Z_LOWER && ks
                    != x11_win::KS_Y_LOWER) ==> r is None && s1 == s0
                &&& (other && !ctrl && x11_win::KS_1 <= ks <= x11_win::KS_6) ==> r is None
                    && same_frame(s1, s0) && s1.draft == s0.draft && s1.canvas.history() == s0.canvas.history()
                    && s1.canvas.style == s0.canvas.style
                    && s1.canvas.tool == ToolKind::spec_from_index(ks - x11_win::KS_1)
                &&& (other && !ctrl && !(x11_win::KS_1 <= ks <= x11_win::KS_6)) ==> r is None
                    && s1 == s0
            })
}

/// A key press with keysym `ks` and modifier mask `mask`. Escape cancels,
/// Return/keypad Enter saves; with Control, `c` copies, `z` undoes and `y`
/// redoes; without, `1` to `6` arm the tools in toolbar order.
pub fn handle_key(state: &mut OverlayState, ks: u32, mask: u16) -> (r: Option<Finish>)
    requires
        key_is_redo(ks, mask) ==> old(state).canvas.history().can_redo(),
    ensures
        keyed(*old(state), ks, mask, *final(state), r),

{
    let ctrl = x11_win::ctrl_held(mask);
    if ks == x11_win::KS_ESCAPE {
        return Some(Finish::Cancel);
    }
    if ks == x11_win::KS_RETURN || ks == x11_win::KS_KP_ENTER {
        return Some(Finish::Save);
    }
    if ctrl {
        if ks == x11_win::KS_C_LOWER {
            return Some(Finish::Copy);
        } else if ks == x11_win::KS_Z_LOWER {
            state.canvas.undo();
        } else if ks == x11_win::KS_Y_LOWER {
            state.canvas.redo();
        }
        return None;
    }
    if x11_win::KS_1 <= ks && ks <= x11_win::KS_6 {
        let idx: usize = (ks - x11_win::KS_1) as usize;
        if let Some(t) = ToolKind::from_index(idx) {
            state.canvas.tool = Some(t);
        }
    }
    None
}

/// Law: without Control, the key with keysym `KS_1 + k` (`k` from 0 to 5)
/// arms the tool at toolbar position `k` and changes nothing else that is
/// drawn or undone.
pub proof fn lemma_digit_keys_arm_toolbar_tools(
    s0: OverlayState,
    k: int,
    mask: u16,
    s1: OverlayState,
    r: Option<Finish>,
)
    requires
        0 <= k < crate::canvas::TOOL_COUNT,
        mask & x11_win::CONTROL_MASK == 0,
        keyed(s0, (x11_win::KS_1 + k) as u32, mask, s1, r),
    ensures
        r is None,
        s1.canvas.tool matches Some(t) && t.spec_index() == k,
        s1.canvas.history() == s0.canvas.history(),
        s1.canvas.style == s0.canvas.style,
        s1.selection == s0.selection,
        s1.mode == s0.mode,
{
    crate::canvas::lemma_tool_index_roundtrip(ToolKind::Pencil, k);
}

/// The pointer glyph to show: the resize glyph through a handle drag, the
/// move glyph through a move drag, a pointing hand over the strip; else by
/// what is under the pointer: a handle's resize glyph, inside the selection
/// the move glyph with Control held or the crosshair, outside it the arrow,
/// and the crosshair before any selection.
pub open spec fn spec_pick_cursor(s: OverlayState, d: Dragging, p: Pos) -> u16 {
    if d == Dragging::EditResize && s.selection_edit is Resizing {
        spec_cursor_glyph(s.selection_edit->0)
    } else if d == Dragging::EditMove {
        XC_FLEUR
    } else if s.strip_hover is Some {
        XC_HAND1
    } else {
        match s.selection {
            Some(sel) => if spec_handle_at(sel, p) is Some {
                spec_cursor_glyph(spec_handle_at(sel, p)->0)
            } else if sel.holds(p) {
                if s.ctrl_down {
                    XC_FLEUR
                } else {
                    XC_CROSSHAIR
                }
            } else {
                XC_LEFT_PTR
            },
            None => XC_CROSSHAIR,
        }
    }
}

pub fn pick_cursor(state: &OverlayState, dragging: &Dragging, p: Pos) -> (g: u16)
    ensures
        g == spec_pick_cursor(*state, *dragging, p),
{
    if let Dragging::EditResize = dragging {
        if let SelectionEdit::Resizing(h) = state.selection_edit {
            return cursor_glyph_for_handle(h);
        }
    }
    if let Dragging::EditMove = dragging {
        return XC_FLEUR;
    }
    if state.strip_hover.is_some() {
        return XC_HAND1;
    }
    match state.selection {
        Some(sel) => {
            if let Some(h) = handle_at(sel, p) {
                cursor_glyph_for_handle(h)
            } else if bounds_contains(sel, p) {
                if state.ctrl_down {
                    XC_FLEUR
                } else {
                    XC_CROSSHAIR
                }
            } else {
                XC_LEFT_PTR
            }
        },
        None => XC_CROSSHAIR,
    }
}

/// Law: markers are numbered consecutively: after one is placed, the next
/// one placed carries the following number.
pub proof fn lemma_markers_count_up(s: OverlayState, p: Pos, t: OverlayState, q: Pos)
    requires
        s.canvas.counter < u32::MAX - 1,
        t.canvas.counter == history_with_marker(s, p).counter,
    ensures
        marker_at(t, q)->Counter_number == marker_at(s, p)->Counter_number + 1,
{
}

/// Law: undoing a marker just placed gives its number back, so the next
/// marker reuses it, and restores the earlier annotations.
pub proof fn lemma_undo_marker_returns_number(s: OverlayState, p: Pos)
    requires
        s.canvas.counter < u32::MAX,
    ensures
        history_with_marker(s, p).undo().counter == s.canvas.counter,
        history_with_marker(s, p).undo().done == s.canvas.history().done,
{
    assert(history_with_marker(s, p).undo().done =~= s.canvas.history().done);
}

/// Law: clicking the same tool button twice leaves the armed tool as it
/// was, when no other tool was armed.
pub proof fn lemma_tool_toggle_twice(armed: Option<ToolKind>, t: ToolKind)
    requires
        armed is None || armed == Some(t),
    ensures
        toggled_tool(toggled_tool(armed, t), t) == armed,
{
}

} // verus!
