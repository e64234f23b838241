//! Floating tool strip: six round tool buttons, then Save and Copy, shown
//! just below the selection frame (or above it, or pinned to the bottom
//! edge when there is no room).
//!
//! Horizontal strip positions are kept in half-pixel units, because the strip
//! is centered under the selection and a selection of odd width puts that
//! center between two pixels.

use crate::canvas::{Bounds, Pos, ToolKind, TOOL_COUNT};
use vstd::prelude::*;

verus! {

/// Diameter of a button.
pub const BUTTON_D: i64 = 34;

/// Gap after each tool button.
pub const GAP: i64 = 6;

/// Extra gap between the tool group and the action group.
pub const GROUP_GAP: i64 = 14;

/// Inner padding of the strip.
pub const PAD: i64 = 6;

/// Distance between the selection frame and the strip.
pub const MARGIN: i64 = 10;

/// Width of the strip: six tools, two actions, the gaps and the padding.
pub const STRIP_W: i64 = 334;

/// Height of the strip.
pub const STRIP_H: i64 = 46;

/// What a strip position points at.
#[derive(Debug, Clone, Copy, PartialEq, Eq, Structural)]
pub enum Hit {
    Tool(ToolKind),
    Save,
    Copy,
}

/// The strip's placement: left edge in half-pixels, top edge in pixels;
/// its size is always `STRIP_W` x `STRIP_H`.
#[derive(Debug, Clone, Copy, PartialEq, Eq, Structural)]
pub struct Strip {
    pub x2: i64,
    pub y: i64,
}

pub open spec fn max_i(a: int, b: int) -> int {
    if a >= b { a } else { b }
}

pub open spec fn min_i(a: int, b: int) -> int {
    if a <= b { a } else { b }
}

/// Below the frame if it fits on screen; else above it if that fits; else
/// pinned 4 pixels above the bottom edge (but not above the top edge + 4).
/// Horizontally centered on the frame, kept 4 pixels inside the screen
/// (the right-hand limit wins on a screen narrower than the strip).
pub open spec fn spec_strip_rect(screen_w: int, screen_h: int, sel: Bounds) -> Strip {
    let y = if sel.bottom() + MARGIN + STRIP_H <= screen_h {
        sel.bottom() + MARGIN
    } else if sel.top() - MARGIN - STRIP_H >= 0 {
        sel.top() - MARGIN - STRIP_H
    } else {
        max_i(screen_h - STRIP_H - 4, 4)
    };
    let x2 = min_i(max_i(2 * sel.left() + sel.w - STRIP_W, 8), 2 * (screen_w - STRIP_W - 4));
    Strip { x2: x2 as i64, y: y as i64 }
}

pub fn strip_rect(screen_w: u32, screen_h: u32, sel: Bounds) -> (s: Strip)
    ensures
        s == spec_strip_rect(screen_w as int, screen_h as int, sel),
{
    let bottom: i64 = sel.y as i64 + sel.h as i64;
    let top: i64 = sel.y as i64;
    let sh: i64 = screen_h as i64;
    let y: i64 = if bottom + MARGIN + STRIP_H <= sh {
        bottom + MARGIN
    } else if top - MARGIN - STRIP_H >= 0 {
        top - MARGIN - STRIP_H
    } else {
        let pinned = sh - STRIP_H - 4;
        if pinned >= 4 {
            pinned
        } else {
            4
        }
    };
    let centered: i64 = 2 * sel.x as i64 + sel.w as i64 - STRIP_W;
    let lo: i64 = if centered >= 8 {
        centered
    } else {
        8
    };
    let hi: i64 = 2 * (screen_w as i64 - STRIP_W - 4);
    let x2: i64 = if lo <= hi {
        lo
    } else {
        hi
    };
    Strip { x2, y }
}

/// The strip's closed rectangle holds `p`.
pub open spec fn spec_contains(s: Strip, p: Pos) -> bool {
    s.x2 <= 2 * p.x <= s.x2 + 2 * STRIP_W && s.y <= p.y <= s.y + STRIP_H
}

pub fn contains(s: Strip, p: Pos) -> (r: bool)
    requires
        -0x1_0000_0000_0000 <= s.x2 <= 0x1_0000_0000_0000,
        -0x1_0000_0000_0000 <= s.y <= 0x1_0000_0000_0000,
    ensures
        r == spec_contains(s, p),
{
    let px2: i64 = 2 * p.x as i64;
    let py: i64 = p.y as i64;
    s.x2 <= px2 && px2 <= s.x2 + 2 * STRIP_W && s.y <= py && py <= s.y + STRIP_H
}

/// Left edge, relative to the strip, of the button at position `i` (tools
/// 0 to 5, then Save, then Copy).
pub open spec fn button_offset(i: int) -> int {
    if i < TOOL_COUNT {
        PAD + i * (BUTTON_D + GAP)
    } else {
        PAD + TOOL_COUNT * (BUTTON_D + GAP) + GROUP_GAP + (i - TOOL_COUNT) * (BUTTON_D + GAP)
    }
}

/// Left edge, relative to the strip, of button `i` (0 to 7).
pub fn button_left(i: usize) -> (r: i64)
    requires
        i < TOOL_COUNT + 2,
    ensures
        r == button_offset(i as int),
{
    if i < TOOL_COUNT {
        PAD + i as i64 * (BUTTON_D + GAP)
    } else {
        PAD + TOOL_COUNT as i64 * (BUTTON_D + GAP) + GROUP_GAP + (i - TOOL_COUNT) as i64 * (BUTTON_D
            + GAP)
    }
}

/// The closed square of button `i` holds `p`.
pub open spec fn on_button(s: Strip, p: Pos, i: int) -> bool {
    let left2 = s.x2 + 2 * button_offset(i);
    let top = s.y + PAD;
    left2 <= 2 * p.x <= left2 + 2 * BUTTON_D && top <= p.y <= top + BUTTON_D
}

pub open spec fn button_hit(i: int) -> Hit {
    if i < TOOL_COUNT {
        Hit::Tool(ToolKind::spec_from_index(i)->0)
    } else if i == TOOL_COUNT {
        Hit::Save
    } else {
        Hit::Copy
    }
}

/// The button under `p`, if any (buttons never overlap).
pub open spec fn spec_hit(s: Strip, p: Pos) -> Option<Hit> {
    if exists|i: int| 0 <= i < TOOL_COUNT + 2 && #[trigger] on_button(s, p, i) {
        Some(button_hit(choose|i: int| 0 <= i < TOOL_COUNT + 2 && #[trigger] on_button(s, p, i)))
    } else {
        None
    }
}

/// Law: the buttons do not overlap, so a position is on at most one.
pub proof fn lemma_buttons_disjoint(s: Strip, p: Pos, i: int, j: int)
    requires
        0 <= i < TOOL_COUNT + 2,
        0 <= j < TOOL_COUNT + 2,
        on_button(s, p, i),
        on_button(s, p, j),
    ensures
        i == j,
{
    assert(i < TOOL_COUNT ==> button_offset(i) == PAD + i * 40) by (nonlinear_arith)
        requires i < TOOL_COUNT ==> button_offset(i) == PAD + i * (BUTTON_D + GAP);
    assert(j < TOOL_COUNT ==> button_offset(j) == PAD + j * 40) by (nonlinear_arith)
        requires j < TOOL_COUNT ==> button_offset(j) == PAD + j * (BUTTON_D + GAP);
    assert(i >= TOOL_COUNT ==> button_offset(i) == 260 + (i - 6) * 40) by (nonlinear_arith)
        requires i >= TOOL_COUNT ==> button_offset(i) == PAD + TOOL_COUNT * (BUTTON_D + GAP) + GROUP_GAP + (i - TOOL_COUNT) * (BUTTON_D + GAP);
    assert(j >= TOOL_COUNT ==> button_offset(j) == 260 + (j - 6) * 40) by (nonlinear_arith)
        requires j >= TOOL_COUNT ==> button_offset(j) == PAD + TOOL_COUNT * (BUTTON_D + GAP) + GROUP_GAP + (j - TOOL_COUNT) * (BUTTON_D + GAP);
}

/// Law: a point on strip button `i` hits that button: the first six arm the
/// tools in toolbar order (button `i` arms the tool at toolbar position
/// `i`), then come Save and Copy.
pub proof fn lemma_button_hits_in_toolbar_order(s: Strip, p: Pos, i: int)
    requires
        0 <= i < TOOL_COUNT + 2,
        on_button(s, p, i),
    ensures
        i < TOOL_COUNT ==> (spec_hit(s, p) matches Some(Hit::Tool(t)) && t.spec_index() == i),
        i == TOOL_COUNT ==> spec_hit(s, p) == Some(Hit::Save),
        i == TOOL_COUNT + 1 ==> spec_hit(s, p) == Some(Hit::Copy),
{
    let k = choose|k: int| 0 <= k < TOOL_COUNT + 2 && #[trigger] on_button(s, p, k);
    lemma_buttons_disjoint(s, p, i, k);
    crate::canvas::lemma_tool_index_roundtrip(ToolKind::Pencil, i);
}

/// The button under `p`.
pub fn hit(s: Strip, p: Pos) -> (r: Option<Hit>)
    requires
        -0x1_0000_0000_0000 <= s.x2 <= 0x1_0000_0000_0000,
        -0x1_0000_0000_0000 <= s.y <= 0x1_0000_0000_0000,
    ensures
        r == spec_hit(s, p),
{
    let px2: i64 = 2 * p.x as i64;
    let py: i64 = p.y as i64;
    let top: i64 = s.y + PAD;
    if py < top || py > top + BUTTON_D {
        proof {
            assert(forall|i: int| 0 <= i < TOOL_COUNT + 2 ==> !#[trigger] on_button(s, p, i));
        }
        return None;
    }
    let mut i: usize = 0;
    while i < TOOL_COUNT + 2
        invariant
            i <= TOOL_COUNT + 2,
            px2 == 2 * p.x,
            py == p.y,
            top == s.y + PAD,
            top <= py <= top + BUTTON_D,
            -0x1_0000_0000_0000 <= s.x2 <= 0x1_0000_0000_0000,
            forall|k: int| 0 <= k < i ==> !#[trigger] on_button(s, p, k),
        decreases TOOL_COUNT + 2 - i,
    {
        let off: i64 = button_left(i);
        let left2: i64 = s.x2 + 2 * off;
        if left2 <= px2 && px2 <= left2 + 2 * BUTTON_D {
            proof {
                assert(on_button(s, p, i as int));
                let c = choose|k: int| 0 <= k < TOOL_COUNT + 2 && #[trigger] on_button(s, p, k);
                lemma_buttons_disjoint(s, p, i as int, c);
            }
            let h = if i < TOOL_COUNT {
                Hit::Tool(ToolKind::from_index(i).unwrap())
            } else if i == TOOL_COUNT {
                Hit::Save
            } else {
                Hit::Copy
            };
            return Some(h);
        }
        i = i + 1;
    }
    None
}

/// Law: on a screen wide enough for it, the strip lies fully inside the
/// screen's width, 4 pixels from either edge; placed below the selection it
/// clears the frame by the margin and stays above the screen bottom.
pub proof fn lemma_strip_on_screen(screen_w: int, screen_h: int, sel: Bounds)
    requires
        screen_w >= STRIP_W + 8,
    ensures
        ({
            let s = spec_strip_rect(screen_w, screen_h, sel);
            &&& 8 <= s.x2
            &&& s.x2 + 2 * STRIP_W <= 2 * (screen_w - 4)
            &&& sel.bottom() + MARGIN + STRIP_H <= screen_h ==> s.y == sel.bottom() + MARGIN
                && s.y + STRIP_H <= screen_h
        }),
{
}

} // verus!
