//! Actions of the toolbar: cancel, undo, redo, and the annotation color
//! taken from the palette.

use crate::canvas::{Canvas, Color};
use crate::ui::UiResult;
use vstd::prelude::*;

verus! {

#[derive(Debug, Clone, Copy, PartialEq, Eq, Structural)]
pub enum Action {
    Cancel,
    Undo,
    Redo,
}

/// Carry out a toolbar action: Cancel ends the session cancelled, Undo and
/// Redo act on the canvas.
pub fn apply(canvas: &mut Canvas, action: Action) -> (r: Option<UiResult>)
    requires
        action == Action::Redo ==> old(canvas).history().can_redo(),
    ensures
        final(canvas).style == old(canvas).style,
        final(canvas).tool == old(canvas).tool,
        action == Action::Cancel ==> r == Some(UiResult::Cancelled) && final(canvas).history()
            == old(canvas).history(),
        action == Action::Undo ==> r is None && final(canvas).history() == old(
            canvas,
        ).history().undo(),
        action == Action::Redo ==> r is None && final(canvas).history() == old(
            canvas,
        ).history().redo(),
{
    match action {
        Action::Cancel => Some(UiResult::Cancelled),
        Action::Undo => {
            canvas.undo();
            None
        },
        Action::Redo => {
            canvas.redo();
            None
        },
    }
}

/// A click on palette swatch `index`: later annotations take that color.
pub fn pick_color(canvas: &mut Canvas, palette: &Vec<Color>, index: usize)
    ensures
        final(canvas).history() == old(canvas).history(),
        final(canvas).tool == old(canvas).tool,
        final(canvas).style.width == old(canvas).style.width,
        final(canvas).style.color == (if index < palette.len() {
            palette@[index as int]
        } else {
            old(canvas).style.color
        }),
{
    if index < palette.len() {
        canvas.style.color = palette[index];
    }
}

/// `i` is the first place of `c` in `p`.
pub open spec fn first_at(p: Seq<Color>, c: Color, i: int) -> bool {
    &&& 0 <= i < p.len()
    &&& p[i] == c
    &&& forall|j: int| 0 <= j < i ==> p[j] != c
}

/// One place forward or back from `i` among `n` places, wrapping around.
pub open spec fn step_index(n: int, i: int, forward: bool) -> int {
    if forward {
        if i + 1 == n {
            0
        } else {
            i + 1
        }
    } else {
        if i == 0 {
            n - 1
        } else {
            i - 1
        }
    }
}

/// The palette color one place forward or back from where `c` first stands
/// in `p`; for a color not in the palette, the first color going forward and
/// the last going back.
pub open spec fn spec_cycled(p: Seq<Color>, c: Color, forward: bool) -> Color {
    if exists|i: int| first_at(p, c, i) {
        p[step_index(p.len() as int, choose|i: int| first_at(p, c, i), forward)]
    } else if forward {
        p[0]
    } else {
        p[p.len() - 1]
    }
}

/// Step the annotation color through the palette; an empty palette changes
/// nothing.
pub fn cycle_color(canvas: &mut Canvas, palette: &Vec<Color>, forward: bool)
    ensures
        final(canvas).history() == old(canvas).history(),
        final(canvas).tool == old(canvas).tool,
        final(canvas).style.width == old(canvas).style.width,
        final(canvas).style.color == (if palette.len() == 0 {
            old(canvas).style.color
        } else {
            spec_cycled(palette@, old(canvas).style.color, forward)
        }),
{
    let n = palette.len();
    if n == 0 {
        return;
    }
    let c = canvas.style.color;
    let mut i: usize = 0;
    while i < n && palette[i] != c
        invariant
            n == palette.len(),
            0 <= i <= n,
            forall|j: int| 0 <= j < i ==> palette@[j] != c,
        decreases n - i,
    {
        i = i + 1;
    }
    if i < n {
        proof {
            assert(palette@[i as int] == c);
            assert(first_at(palette@, c, i as int));
            let k = choose|k: int| first_at(palette@, c, k);
            assert(k == i as int) by {
                if k < i as int {
                    assert(palette@[k] != c);
                } else if k > i as int {
                    assert(palette@[i as int] != c);
                }
            }
        }
        let next: usize = if forward {
            if i + 1 == n {
                0
            } else {
                i + 1
            }
        } else {
            if i == 0 {
                n - 1
            } else {
                i - 1
            }
        };
        pick_color(canvas, palette, next);
    } else {
        proof {
            assert(!exists|k: int| first_at(palette@, c, k));
        }
        let j: usize = if forward {
            0
        } else {
            n - 1
        };
        pick_color(canvas, palette, j);
    }
}

} // verus!
