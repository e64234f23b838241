//! In-progress annotations. A draft is alive during a drag and becomes an
//! `Annotation` on release (via `finalize`).

use crate::canvas::{Annotation, Bounds, Pos, Style, ToolKind};
use vstd::prelude::*;

verus! {

#[derive(Debug, Clone)]
pub enum Draft {
    Pencil { points: Vec<Pos>, style: Style },
    Arrow { start: Pos, end: Pos, style: Style },
    Rect { start: Pos, end: Pos, style: Style },
    Ellipse { start: Pos, end: Pos, style: Style },
    Blur { start: Pos, end: Pos, block: u32 },
}

/// Squared distance between two points.
pub open spec fn dist2(a: Pos, b: Pos) -> int {
    (a.x - b.x) * (a.x - b.x) + (a.y - b.y) * (a.y - b.y)
}

/// A rectangle with enough area to be visible: at least 2x2.
pub open spec fn spec_drawable(a: Pos, b: Pos) -> Option<Bounds> {
    let r = Bounds::spanned(a, b);
    if r.w >= 2 && r.h >= 2 {
        Some(r)
    } else {
        None
    }
}

/// `d` is the draft a press with `tool` at `pos` starts: a one-point
/// stroke, or a shape whose two corners are both `pos`; the marker tool
/// places on click and starts none.
pub open spec fn is_new_draft(d: Option<Draft>, tool: ToolKind, pos: Pos, style: Style, block: u32) -> bool {
    match tool {
        ToolKind::Pencil => d matches Some(Draft::Pencil { points, style: s }) && points@ == seq![pos] && s == style,
        ToolKind::Arrow => d == Some(Draft::Arrow { start: pos, end: pos, style }),
        ToolKind::Rect => d == Some(Draft::Rect { start: pos, end: pos, style }),
        ToolKind::Ellipse => d == Some(Draft::Ellipse { start: pos, end: pos, style }),
        ToolKind::Blur => d == Some(Draft::Blur { start: pos, end: pos, block }),
        ToolKind::Counter => d is None,
    }
}

/// `new` is `old` followed to `p`: a stroke gains `p` as its last point, a
/// shape gets `p` as its moving corner.
pub open spec fn is_extended(old: Draft, new: Draft, p: Pos) -> bool {
    match old {
        Draft::Pencil { points, style } => new matches Draft::Pencil { points: q, style: s } && q@ == points@.push(p) && s == style,
        Draft::Arrow { start, end, style } => new == Draft::Arrow { start, end: p, style },
        Draft::Rect { start, end, style } => new == Draft::Rect { start, end: p, style },
        Draft::Ellipse { start, end, style } => new == Draft::Ellipse { start, end: p, style },
        Draft::Blur { start, end, block } => new == Draft::Blur { start, end: p, block },
    }
}

/// The annotation a finished draft commits, if it is big enough to see: a
/// stroke needs two points, an arrow a length of at least 2, a rectangle,
/// ellipse or blur at least 2x2 pixels.
pub open spec fn spec_finalize(d: Draft) -> Option<Annotation> {
    match d {
        Draft::Pencil { points, style } => if points@.len() >= 2 {
            Some(Annotation::Pencil { points, color: style.color, width: style.width })
        } else {
            None
        },
        Draft::Arrow { start, end, style } => if dist2(start, end) >= 4 {
            Some(Annotation::Arrow { start, end, color: style.color, width: style.width })
        } else {
            None
        },
        Draft::Rect { start, end, style } => match spec_drawable(start, end) {
            Some(rect) => Some(Annotation::Rect { rect, color: style.color, width: style.width }),
            None => None,
        },
        Draft::Ellipse { start, end, style } => match spec_drawable(start, end) {
            Some(rect) => Some(Annotation::Ellipse { rect, color: style.color, width: style.width }),
            None => None,
        },
        Draft::Blur { start, end, block } => match spec_drawable(start, end) {
            Some(rect) => Some(Annotation::Blur { rect, block }),
            None => None,
        },
    }
}

/// Law: following a stroke keeps every earlier point: the new stroke is one
/// point longer, begins with all the old points in order, and ends at the
/// pointer. A shape keeps its anchor corner and moves the other to the
/// pointer.
pub proof fn lemma_follow_keeps_earlier_points(old: Draft, new: Draft, p: Pos)
    requires
        is_extended(old, new, p),
    ensures
        old matches Draft::Pencil { points, .. } ==> (new matches Draft::Pencil { points: q, .. }
            && q@.len() == points@.len() + 1 && q@.take(points@.len() as int) == points@
            && q@[points@.len() as int] == p),
        old matches Draft::Arrow { start, style, .. } ==> new == (Draft::Arrow { start, end: p, style }),
        old matches Draft::Rect { start, style, .. } ==> new == (Draft::Rect { start, end: p, style }),
        old matches Draft::Ellipse { start, style, .. } ==> new == (Draft::Ellipse { start, end: p, style }),
        old matches Draft::Blur { start, block, .. } ==> new == (Draft::Blur { start, end: p, block }),
{
    if let Draft::Pencil { points, .. } = old {
        if let Draft::Pencil { points: q, .. } = new {
            assert(q@.take(points@.len() as int) =~= points@);
        }
    }
}

/// Law: a stroke started with a press at `p0` and followed through the
/// motion points `ps`, one `extend` each (`ds[k + 1]` follows `ds[k]` to
/// `ps[k]`), holds the press point and then every motion point, in order.
pub proof fn lemma_stroke_is_press_then_motion(
    ds: Seq<Draft>,
    ps: Seq<Pos>,
    p0: Pos,
    style: Style,
    block: u32,
    n: int,
)
    requires
        ds.len() == ps.len() + 1,
        0 <= n <= ps.len(),
        is_new_draft(Some(ds[0]), ToolKind::Pencil, p0, style, block),
        forall|k: int| 0 <= k < ps.len() ==> #[trigger] is_extended(ds[k], ds[k + 1], ps[k]),
    ensures
        ds[n] matches Draft::Pencil { points, .. } && points@ == seq![p0] + ps.take(n),
    decreases n,
{
    if n > 0 {
        lemma_stroke_is_press_then_motion(ds, ps, p0, style, block, n - 1);
        let k = n - 1;
        assert(is_extended(ds[k], ds[k + 1], ps[k]));
        assert(k + 1 == n);
        if let Draft::Pencil { points, .. } = ds[n] {
            assert(points@ =~= seq![p0] + ps.take(n));
        }
    } else {
        if let Draft::Pencil { points, .. } = ds[0] {
            assert(points@ =~= seq![p0] + ps.take(0));
        }
    }
}

impl Draft {
    /// Build a draft for `tool` starting at `pos`. `None` for tools that
    /// don't drag (the marker fires on click).
    pub fn new(tool: ToolKind, pos: Pos, style: Style, block: u32) -> (d: Option<Draft>)
        ensures
            is_new_draft(d, tool, pos, style, block),
    {
        match tool {
            ToolKind::Pencil => {
                let mut points: Vec<Pos> = Vec::new();
                points.push(pos);
                proof {
                    assert(points@ =~= seq![pos]);
                }
                Some(Draft::Pencil { points, style })
            },
            ToolKind::Arrow => Some(Draft::Arrow { start: pos, end: pos, style }),
            ToolKind::Rect => Some(Draft::Rect { start: pos, end: pos, style }),
            ToolKind::Ellipse => Some(Draft::Ellipse { start: pos, end: pos, style }),
            ToolKind::Blur => Some(Draft::Blur { start: pos, end: pos, block }),
            ToolKind::Counter => None,
        }
    }

    /// Follow the drag to `p`.
    pub fn extend(&mut self, p: Pos)
        ensures
            is_extended(*old(self), *final(self), p),
    {
        match self {
            Draft::Pencil { points, .. } => points.push(p),
            Draft::Arrow { end, .. } => *end = p,
            Draft::Rect { end, .. } => *end = p,
            Draft::Ellipse { end, .. } => *end = p,
            Draft::Blur { end, .. } => *end = p,
        }
    }

    /// Convert a completed draft into a committed annotation; `None` for
    /// drags too small to see, so a click without a drag draws nothing.
    pub fn finalize(self) -> (a: Option<Annotation>)
        ensures
            a == spec_finalize(self),
    {
        match self {
            Draft::Pencil { points, style } => {
                if points.len() >= 2 {
                    Some(Annotation::Pencil { points, color: style.color, width: style.width })
                } else {
                    None
                }
            },
            Draft::Arrow { start, end, style } => {
                if dist2_exec(start, end) >= 4 {
                    Some(Annotation::Arrow { start, end, color: style.color, width: style.width })
                } else {
                    None
                }
            },
            Draft::Rect { start, end, style } => match drawable(start, end) {
                Some(rect) => Some(Annotation::Rect { rect, color: style.color, width: style.width }),
                None => None,
            },
            Draft::Ellipse { start, end, style } => match drawable(start, end) {
                Some(rect) => Some(Annotation::Ellipse { rect, color: style.color, width: style.width }),
                None => None,
            },
            Draft::Blur { start, end, block } => match drawable(start, end) {
                Some(rect) => Some(Annotation::Blur { rect, block }),
                None => None,
            },
        }
    }
}

/// A `Bounds` only if the rectangle has enough area to be visible.
pub fn drawable(a: Pos, b: Pos) -> (r: Option<Bounds>)
    ensures
        r == spec_drawable(a, b),
{
    let r = Bounds::from_two(a, b);
    if r.w >= 2 && r.h >= 2 {
        Some(r)
    } else {
        None
    }
}

/// Squared distance, exactly.
pub fn dist2_exec(a: Pos, b: Pos) -> (d: u128)
    ensures
        d == dist2(a, b),
{
    let dx: i128 = a.x as i128 - b.x as i128;
    let dy: i128 = a.y as i128 - b.y as i128;
    assert(0 <= dx * dx <= 0x1_0000_0000_0000_0000) by (nonlinear_arith)
        requires
            -0x1_0000_0000 <= dx <= 0x1_0000_0000,
    ;
    assert(0 <= dy * dy <= 0x1_0000_0000_0000_0000) by (nonlinear_arith)
        requires
            -0x1_0000_0000 <= dy <= 0x1_0000_0000,
    ;
    (dx * dx + dy * dy) as u128
}

/// Law: a press that is released without moving commits nothing, whatever
/// the tool.
pub proof fn lemma_click_commits_nothing(d: Draft, tool: ToolKind, pos: Pos, style: Style, block: u32)
    requires
        is_new_draft(Some(d), tool, pos, style, block),
    ensures
        spec_finalize(d) is None,
{
}

/// Law: a committed shape lies in the rectangle spanned by its two drag
/// corners, and a committed stroke keeps every drawn point.
pub proof fn lemma_finalize_keeps_geometry(d: Draft)
    ensures
        spec_finalize(d) matches Some(a) ==> match (d, a) {
            (Draft::Rect { start, end, .. }, Annotation::Rect { rect, .. }) => rect == Bounds::spanned(start, end),
            (Draft::Ellipse { start, end, .. }, Annotation::Ellipse { rect, .. }) => rect == Bounds::spanned(start, end),
            (Draft::Blur { start, end, .. }, Annotation::Blur { rect, .. }) => rect == Bounds::spanned(start, end),
            (Draft::Pencil { points, .. }, Annotation::Pencil { points: q, .. }) => q@ == points@,
            (Draft::Arrow { start, end, .. }, Annotation::Arrow { start: s, end: e, .. }) => s == start && e == end,
            _ => false,
        },
{
}

} // verus!
