//! Selection rectangle editing: handle hit-testing, resize arithmetic and
//! the positions of the eight handles.

use crate::canvas::{Bounds, Pos};
use vstd::prelude::*;

verus! {

#[derive(Debug, Clone, Copy, PartialEq, Eq, Structural)]
pub enum Handle {
    N,
    S,
    E,
    W,
    NE,
    NW,
    SE,
    SW,
}

#[derive(Debug, Clone, Copy, PartialEq, Eq, Structural)]
pub enum SelectionEdit {
    Idle,
    Moving,
    Resizing(Handle),
}

/// Half-size of the square around a corner that grabs it.
pub const CORNER_HIT: i64 = 14;

/// Distance from an edge line that still grabs the edge.
pub const EDGE_HIT: i64 = 8;

/// Side of the drawn handle squares.
pub const HANDLE_VISUAL: i64 = 10;

pub open spec fn dist(a: int, b: int) -> int {
    if a >= b { a - b } else { b - a }
}

pub open spec fn near_corner(p: Pos, cx: int, cy: int) -> bool {
    dist(p.x as int, cx) <= CORNER_HIT && dist(p.y as int, cy) <= CORNER_HIT
}

/// The handle under `p`: corners first (NW, NE, SW, SE), then the edges
/// (N, S, W, E) anywhere along their line.
pub open spec fn spec_handle_at(rect: Bounds, p: Pos) -> Option<Handle> {
    let l = rect.left();
    let r = rect.right();
    let t = rect.top();
    let b = rect.bottom();
    let in_x = l - EDGE_HIT <= p.x <= r + EDGE_HIT;
    let in_y = t - EDGE_HIT <= p.y <= b + EDGE_HIT;
    if near_corner(p, l, t) {
        Some(Handle::NW)
    } else if near_corner(p, r, t) {
        Some(Handle::NE)
    } else if near_corner(p, l, b) {
        Some(Handle::SW)
    } else if near_corner(p, r, b) {
        Some(Handle::SE)
    } else if dist(p.y as int, t) <= EDGE_HIT && in_x {
        Some(Handle::N)
    } else if dist(p.y as int, b) <= EDGE_HIT && in_x {
        Some(Handle::S)
    } else if dist(p.x as int, l) <= EDGE_HIT && in_y {
        Some(Handle::W)
    } else if dist(p.x as int, r) <= EDGE_HIT && in_y {
        Some(Handle::E)
    } else {
        None
    }
}

fn dist_i64(a: i64, b: i64) -> (r: i64)
    requires
        -0x1_0000_0000_0000 <= a <= 0x1_0000_0000_0000,
        -0x1_0000_0000_0000 <= b <= 0x1_0000_0000_0000,
    ensures
        r == dist(a as int, b as int),
{
    if a >= b {
        a - b
    } else {
        b - a
    }
}

/// Which handle (if any) the pointer is on.
pub fn handle_at(rect: Bounds, p: Pos) -> (r: Option<Handle>)
    ensures
        r == spec_handle_at(rect, p),
{
    let l: i64 = rect.x as i64;
    let r: i64 = rect.x as i64 + rect.w as i64;
    let t: i64 = rect.y as i64;
    let b: i64 = rect.y as i64 + rect.h as i64;
    let px: i64 = p.x as i64;
    let py: i64 = p.y as i64;
    if dist_i64(px, l) <= CORNER_HIT && dist_i64(py, t) <= CORNER_HIT {
        return Some(Handle::NW);
    }
    if dist_i64(px, r) <= CORNER_HIT && dist_i64(py, t) <= CORNER_HIT {
        return Some(Handle::NE);
    }
    if dist_i64(px, l) <= CORNER_HIT && dist_i64(py, b) <= CORNER_HIT {
        return Some(Handle::SW);
    }
    if dist_i64(px, r) <= CORNER_HIT && dist_i64(py, b) <= CORNER_HIT {
        return Some(Handle::SE);
    }
    let in_x = px >= l - EDGE_HIT && px <= r + EDGE_HIT;
    let in_y = py >= t - EDGE_HIT && py <= b + EDGE_HIT;
    if dist_i64(py, t) <= EDGE_HIT && in_x {
        return Some(Handle::N);
    }
    if dist_i64(py, b) <= EDGE_HIT && in_x {
        return Some(Handle::S);
    }
    if dist_i64(px, l) <= EDGE_HIT && in_y {
        return Some(Handle::W);
    }
    if dist_i64(px, r) <= EDGE_HIT && in_y {
        return Some(Handle::E);
    }
    None
}

/// Law: a handle is only ever found within the grab margin of the rectangle,
/// and a pointer near a corner always grabs a corner.
pub proof fn lemma_handle_near_rect(rect: Bounds, p: Pos)
    ensures
        spec_handle_at(rect, p) is Some ==> rect.left() - CORNER_HIT <= p.x <= rect.right()
            + CORNER_HIT && rect.top() - CORNER_HIT <= p.y <= rect.bottom() + CORNER_HIT,
        near_corner(p, rect.left(), rect.top()) || near_corner(p, rect.right(), rect.top())
            || near_corner(p, rect.left(), rect.bottom()) || near_corner(
            p,
            rect.right(),
            rect.bottom(),
        ) ==> (spec_handle_at(rect, p) matches Some(h) && (h == Handle::NW || h == Handle::NE
            || h == Handle::SW || h == Handle::SE)),
{
}

/// The four edges (left, top, right, bottom) after dragging `handle` by
/// (`dx`, `dy`), before normalizing.
pub open spec fn dragged_edges(rect: Bounds, handle: Handle, dx: int, dy: int) -> (
    int,
    int,
    int,
    int,
) {
    let l = rect.left();
    let t = rect.top();
    let r = rect.right();
    let b = rect.bottom();
    match handle {
        Handle::N => (l, t + dy, r, b),
        Handle::S => (l, t, r, b + dy),
        Handle::E => (l, t, r + dx, b),
        Handle::W => (l + dx, t, r, b),
        Handle::NE => (l, t + dy, r + dx, b),
        Handle::NW => (l + dx, t + dy, r, b),
        Handle::SE => (l, t, r + dx, b + dy),
        Handle::SW => (l + dx, t, r, b + dy),
    }
}

pub open spec fn min_of(a: int, b: int) -> int {
    if a <= b { a } else { b }
}

/// The dragged rectangle, normalized so that dragging past the opposite
/// edge flips cleanly.
pub open spec fn spec_resize(rect: Bounds, handle: Handle, dx: int, dy: int) -> Bounds {
    let (l, t, r, b) = dragged_edges(rect, handle, dx, dy);
    Bounds {
        x: min_of(l, r) as i32,
        y: min_of(t, b) as i32,
        w: dist(l, r) as u32,
        h: dist(t, b) as u32,
    }
}

/// The dragged rectangle is representable: its corner fits `i32` and its
/// extent `u32`.
pub open spec fn resize_fits(rect: Bounds, handle: Handle, dx: int, dy: int) -> bool {
    let (l, t, r, b) = dragged_edges(rect, handle, dx, dy);
    &&& i32::MIN <= min_of(l, r) <= i32::MAX
    &&& i32::MIN <= min_of(t, b) <= i32::MAX
    &&& dist(l, r) <= u32::MAX
    &&& dist(t, b) <= u32::MAX
}

/// Apply a drag delta to the rectangle for the given handle.
pub fn resize_rect(rect: Bounds, handle: Handle, dx: i64, dy: i64) -> (r: Bounds)
    requires
        resize_fits(rect, handle, dx as int, dy as int),
    ensures
        r == spec_resize(rect, handle, dx as int, dy as int),
{
    let mut l: i64 = rect.x as i64;
    let mut t: i64 = rect.y as i64;
    let mut r: i64 = rect.x as i64 + rect.w as i64;
    let mut b: i64 = rect.y as i64 + rect.h as i64;
    match handle {
        Handle::N => t = t + dy,
        Handle::S => b = b + dy,
        Handle::E => r = r + dx,
        Handle::W => l = l + dx,
        Handle::NE => {
            t = t + dy;
            r = r + dx;
        },
        Handle::NW => {
            t = t + dy;
            l = l + dx;
        },
        Handle::SE => {
            r = r + dx;
            b = b + dy;
        },
        Handle::SW => {
            l = l + dx;
            b = b + dy;
        },
    }
    if l > r {
        let tmp = l;
        l = r;
        r = tmp;
    }
    if t > b {
        let tmp = t;
        t = b;
        b = tmp;
    }
    Bounds { x: l as i32, y: t as i32, w: (r - l) as u32, h: (b - t) as u32 }
}

/// Whether `resize_rect` can apply this drag.
pub fn resize_fits_exec(rect: Bounds, handle: Handle, dx: i64, dy: i64) -> (r: bool)
    ensures
        r == resize_fits(rect, handle, dx as int, dy as int),
{
    let mut l: i128 = rect.x as i128;
    let mut t: i128 = rect.y as i128;
    let mut r: i128 = rect.x as i128 + rect.w as i128;
    let mut b: i128 = rect.y as i128 + rect.h as i128;
    match handle {
        Handle::N => t = t + dy as i128,
        Handle::S => b = b + dy as i128,
        Handle::E => r = r + dx as i128,
        Handle::W => l = l + dx as i128,
        Handle::NE => {
            t = t + dy as i128;
            r = r + dx as i128;
        },
        Handle::NW => {
            t = t + dy as i128;
            l = l + dx as i128;
        },
        Handle::SE => {
            r = r + dx as i128;
            b = b + dy as i128;
        },
        Handle::SW => {
            l = l + dx as i128;
            b = b + dy as i128;
        },
    }
    let x_lo: i128 = if l <= r { l } else { r };
    let x_ext: i128 = if l <= r { r - l } else { l - r };
    let y_lo: i128 = if t <= b { t } else { b };
    let y_ext: i128 = if t <= b { b - t } else { t - b };
    i32::MIN as i128 <= x_lo && x_lo <= i32::MAX as i128 && i32::MIN as i128 <= y_lo && y_lo
        <= i32::MAX as i128 && x_ext <= u32::MAX as i128 && y_ext <= u32::MAX as i128
}

/// The handle grabs the left edge.
pub open spec fn grabs_left(h: Handle) -> bool {
    h == Handle::W || h == Handle::NW || h == Handle::SW
}

/// The handle grabs the right edge.
pub open spec fn grabs_right(h: Handle) -> bool {
    h == Handle::E || h == Handle::NE || h == Handle::SE
}

/// The handle grabs the top edge.
pub open spec fn grabs_top(h: Handle) -> bool {
    h == Handle::N || h == Handle::NE || h == Handle::NW
}

/// The handle grabs the bottom edge.
pub open spec fn grabs_bottom(h: Handle) -> bool {
    h == Handle::S || h == Handle::SE || h == Handle::SW
}

/// Law: each edge a handle grabs follows the pointer by exactly the drag
/// delta (horizontal edges by `dy`, vertical edges by `dx`), and every other
/// edge stays, as long as the drag does not carry an edge past the opposite
/// one. So dragging the left handle left grows the selection to the left.
pub proof fn lemma_resize_edges_follow_pointer(rect: Bounds, handle: Handle, dx: int, dy: int)
    requires
        resize_fits(rect, handle, dx, dy),
        grabs_left(handle) ==> dx <= rect.w,
        grabs_right(handle) ==> dx >= -(rect.w as int),
        grabs_top(handle) ==> dy <= rect.h,
        grabs_bottom(handle) ==> dy >= -(rect.h as int),
    ensures
        ({
            let r = spec_resize(rect, handle, dx, dy);
            &&& r.left() == rect.left() + (if grabs_left(handle) { dx } else { 0 })
            &&& r.right() == rect.right() + (if grabs_right(handle) { dx } else { 0 })
            &&& r.top() == rect.top() + (if grabs_top(handle) { dy } else { 0 })
            &&& r.bottom() == rect.bottom() + (if grabs_bottom(handle) { dy } else { 0 })
        }),
{
}

/// Law: a drag by nothing leaves the rectangle as it was.
pub proof fn lemma_resize_by_zero(rect: Bounds, handle: Handle)
    ensures
        resize_fits(rect, handle, 0, 0),
        spec_resize(rect, handle, 0, 0) == rect,
{
}

/// Law: the edges a handle does not touch stay where they were, as long as
/// the drag does not flip the rectangle.
pub proof fn lemma_resize_keeps_opposite_edges(rect: Bounds, handle: Handle, dx: int, dy: int)
    requires
        resize_fits(rect, handle, dx, dy),
        dx >= -(rect.w as int),
        dy >= -(rect.h as int),
        dx <= rect.w as int,
        dy <= rect.h as int,
    ensures
        ({
            let s = spec_resize(rect, handle, dx, dy);
            &&& (handle == Handle::S || handle == Handle::E || handle == Handle::SE) ==> (
            s.left() == rect.left() && s.top() == rect.top())
            &&& (handle == Handle::N || handle == Handle::W || handle == Handle::NW) ==> (
            s.right() == rect.right() && s.bottom() == rect.bottom())
            &&& handle == Handle::NE ==> (s.left() == rect.left() && s.bottom() == rect.bottom())
            &&& handle == Handle::SW ==> (s.right() == rect.right() && s.top() == rect.top())
        }),
{
}

/// The eight handle centers, in half-pixel units (twice the pixel
/// coordinate), clockwise from the top-left corner.
pub open spec fn spec_handle_positions(rect: Bounds) -> Seq<(Handle, int, int)> {
    let l = 2 * rect.left();
    let r = 2 * rect.right();
    let t = 2 * rect.top();
    let b = 2 * rect.bottom();
    let cx = 2 * rect.left() + rect.w;
    let cy = 2 * rect.top() + rect.h;
    seq![
        (Handle::NW, l, t),
        (Handle::N, cx, t),
        (Handle::NE, r, t),
        (Handle::E, r, cy),
        (Handle::SE, r, b),
        (Handle::S, cx, b),
        (Handle::SW, l, b),
        (Handle::W, l, cy),
    ]
}

pub fn handle_corner_positions(rect: Bounds) -> (r: Vec<(Handle, i64, i64)>)
    ensures
        r@.len() == 8,
        forall|i: int|
            0 <= i < 8 ==> {
                let (h, x, y) = #[trigger] r@[i];
                spec_handle_positions(rect)[i] == (h, x as int, y as int)
            },
{
    let l: i64 = 2 * rect.x as i64;
    let r: i64 = 2 * (rect.x as i64 + rect.w as i64);
    let t: i64 = 2 * rect.y as i64;
    let b: i64 = 2 * (rect.y as i64 + rect.h as i64);
    let cx: i64 = 2 * rect.x as i64 + rect.w as i64;
    let cy: i64 = 2 * rect.y as i64 + rect.h as i64;
    let v = vec![
        (Handle::NW, l, t),
        (Handle::N, cx, t),
        (Handle::NE, r, t),
        (Handle::E, r, cy),
        (Handle::SE, r, b),
        (Handle::S, cx, b),
        (Handle::SW, l, b),
        (Handle::W, l, cy),
    ];
    v
}

/// Law: on a selection wider and taller than two corner grab margins, each
/// drawn handle hit-tests to its own handle at the pixel of its centre (the
/// pixel left of or above the centre where that falls between two pixels).
/// A side of exactly `2 * CORNER_HIT + 1` pixels is left out: there the pixel
/// next to the half-pixel centre lies within a corner's grab margin.
pub proof fn lemma_handle_centres_hit_own_handle(rect: Bounds, i: int)
    requires
        rect.w > 2 * CORNER_HIT,
        rect.h > 2 * CORNER_HIT,
        rect.w != 2 * CORNER_HIT + 1,
        rect.h != 2 * CORNER_HIT + 1,
        rect.right() <= i32::MAX,
        rect.bottom() <= i32::MAX,
        0 <= i < 8,
    ensures
        ({
            let (h, x2, y2) = spec_handle_positions(rect)[i];
            spec_handle_at(rect, Pos { x: (x2 / 2) as i32, y: (y2 / 2) as i32 }) == Some(h)
        }),
{
    let ps = spec_handle_positions(rect);
    let (h, x2, y2) = ps[i];
    let l = rect.left();
    let r = rect.right();
    let t = rect.top();
    let b = rect.bottom();
    assert(ps[0] == (Handle::NW, 2 * l, 2 * t));
    assert(ps[1] == (Handle::N, 2 * l + rect.w, 2 * t));
    assert(ps[2] == (Handle::NE, 2 * r, 2 * t));
    assert(ps[3] == (Handle::E, 2 * r, 2 * t + rect.h));
    assert(ps[4] == (Handle::SE, 2 * r, 2 * b));
    assert(ps[5] == (Handle::S, 2 * l + rect.w, 2 * b));
    assert(ps[6] == (Handle::SW, 2 * l, 2 * b));
    assert(ps[7] == (Handle::W, 2 * l, 2 * t + rect.h));
}

pub open spec fn spec_cursor_glyph(h: Handle) -> u16 {
    match h {
        Handle::N => 138,
        Handle::S => 16,
        Handle::E => 96,
        Handle::W => 70,
        Handle::NE => 136,
        Handle::NW => 134,
        Handle::SE => 14,
        Handle::SW => 12,
    }
}

/// Stock X11 cursor-font glyph for each resize direction.
pub fn cursor_glyph_for_handle(h: Handle) -> (g: u16)
    ensures
        g == spec_cursor_glyph(h),
{
    match h {
        Handle::N => 138,
        Handle::S => 16,
        Handle::E => 96,
        Handle::W => 70,
        Handle::NE => 136,
        Handle::NW => 134,
        Handle::SE => 14,
        Handle::SW => 12,
    }
}

} // verus!
