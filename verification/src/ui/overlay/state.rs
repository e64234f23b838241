//! The overlay's interaction state.

use crate::canvas::{Bounds, Canvas, Pos, Scalar, Style, ToolKind};
use super::draft::Draft;
use super::selection::SelectionEdit;
use super::tool_buttons::Hit;
use vstd::prelude::*;

verus! {

#[derive(Debug, Clone, Copy, PartialEq, Eq, Structural)]
pub enum Mode {
    /// Waiting for the region drag.
    SelectingRegion,
    /// A region is selected: draw, edit the frame, save or copy.
    Annotating,
}

/// Everything the overlay's input handling reads and changes. The captured
/// image itself stays with the caller; only its size matters here.
#[derive(Debug)]
pub struct OverlayState {
    pub width: u32,
    pub height: u32,
    pub mode: Mode,
    pub selection: Option<Bounds>,
    pub sel_drag_start: Option<Pos>,
    pub selection_edit: SelectionEdit,
    pub edit_drag_start: Option<Pos>,
    pub edit_rect_start: Option<Bounds>,
    pub canvas: Canvas,
    pub ctrl_down: bool,
    pub draft: Option<Draft>,
    pub counter_radius: Scalar,
    pub pixelate_block: u32,
    pub strip_hover: Option<Hit>,
}

/// `a` and `b` agree on everything but the canvas and the draft.
pub open spec fn same_frame(a: OverlayState, b: OverlayState) -> bool {
    &&& a.width == b.width
    &&& a.height == b.height
    &&& a.mode == b.mode
    &&& a.selection == b.selection
    &&& a.sel_drag_start == b.sel_drag_start
    &&& a.selection_edit == b.selection_edit
    &&& a.edit_drag_start == b.edit_drag_start
    &&& a.edit_rect_start == b.edit_rect_start
    &&& a.ctrl_down == b.ctrl_down
    &&& a.counter_radius == b.counter_radius
    &&& a.pixelate_block == b.pixelate_block
    &&& a.strip_hover == b.strip_hover
}

/// `a` and `b` have the same canvas contents, style and tool.
pub open spec fn same_canvas(a: OverlayState, b: OverlayState) -> bool {
    &&& a.canvas.history() == b.canvas.history()
    &&& a.canvas.style == b.canvas.style
    &&& a.canvas.tool == b.canvas.tool
}

impl OverlayState {
    /// A fresh session over a `width` x `height` capture: region selection,
    /// nothing drawn.
    pub fn new(
        width: u32,
        height: u32,
        style: Style,
        tool: Option<ToolKind>,
        counter_radius: Scalar,
        pixelate_block: u32,
    ) -> (s: OverlayState)
        ensures
            s.width == width,
            s.height == height,
            s.mode == Mode::SelectingRegion,
            s.selection is None,
            s.sel_drag_start is None,
            s.selection_edit == SelectionEdit::Idle,
            s.edit_drag_start is None,
            s.edit_rect_start is None,
            s.canvas.annotations@.len() == 0,
            s.canvas.redo@.len() == 0,
            s.canvas.counter == 0,
            s.canvas.style == style,
            s.canvas.tool == tool,
            !s.ctrl_down,
            s.draft is None,
            s.counter_radius == counter_radius,
            s.pixelate_block == pixelate_block,
            s.strip_hover is None,
    {
        let mut canvas = Canvas::default();
        canvas.style = style;
        canvas.tool = tool;
        OverlayState {
            width,
            height,
            mode: Mode::SelectingRegion,
            selection: None,
            sel_drag_start: None,
            selection_edit: SelectionEdit::Idle,
            edit_drag_start: None,
            edit_rect_start: None,
            canvas,
            ctrl_down: false,
            draft: None,
            counter_radius,
            pixelate_block,
            strip_hover: None,
        }
    }
}

} // verus!
