pub mod geometry;
pub mod render;

pub use geometry::{Bounds, Pos};
use vstd::prelude::*;

verus! {

/// An 8-bit RGBA color, straight (not premultiplied) alpha.
#[derive(Debug, Clone, Copy, PartialEq, Eq, Structural)]
pub struct Color {
    pub r: u8,
    pub g: u8,
    pub b: u8,
    pub a: u8,
}

/// A real-valued drawing parameter (stroke width, marker radius) held by
/// its IEEE-754 single-precision bit pattern. The library only carries it;
/// the renderer reads it back with `f32::from_bits`.
#[derive(Debug, Clone, Copy, PartialEq, Eq, Structural)]
pub struct Scalar {
    pub bits: u32,
}

/// The bit pattern of 4.0.
pub const FOUR_BITS: u32 = 0x4080_0000u32;

/// The bit pattern of 16.0.
pub const SIXTEEN_BITS: u32 = 0x4180_0000u32;

/// The drawing tools, in toolbar order (keys 1 to 6).
#[derive(Debug, Clone, Copy, PartialEq, Eq, Hash, Structural)]
pub enum ToolKind {
    Pencil,
    Arrow,
    Rect,
    Ellipse,
    Blur,
    Counter,
}

/// Number of tools.
pub const TOOL_COUNT: usize = 6;

impl ToolKind {
    /// Toolbar position of each tool.
    pub open spec fn spec_index(self) -> int {
        match self {
            ToolKind::Pencil => 0,
            ToolKind::Arrow => 1,
            ToolKind::Rect => 2,
            ToolKind::Ellipse => 3,
            ToolKind::Blur => 4,
            ToolKind::Counter => 5,
        }
    }

    /// The tool at toolbar position `i`, if there is one.
    pub open spec fn spec_from_index(i: int) -> Option<ToolKind> {
        if i == 0 {
            Some(ToolKind::Pencil)
        } else if i == 1 {
            Some(ToolKind::Arrow)
        } else if i == 2 {
            Some(ToolKind::Rect)
        } else if i == 3 {
            Some(ToolKind::Ellipse)
        } else if i == 4 {
            Some(ToolKind::Blur)
        } else if i == 5 {
            Some(ToolKind::Counter)
        } else {
            None
        }
    }

    pub fn index(self) -> (r: usize)
        ensures
            r == self.spec_index(),
            r < TOOL_COUNT,
    {
        match self {
            ToolKind::Pencil => 0,
            ToolKind::Arrow => 1,
            ToolKind::Rect => 2,
            ToolKind::Ellipse => 3,
            ToolKind::Blur => 4,
            ToolKind::Counter => 5,
        }
    }

    /// `ALL.get(i)`: the tool at toolbar position `i`.
    pub fn from_index(i: usize) -> (r: Option<ToolKind>)
        ensures
            r == ToolKind::spec_from_index(i as int),
            r is Some <==> i < TOOL_COUNT,
    {
        if i == 0 {
            Some(ToolKind::Pencil)
        } else if i == 1 {
            Some(ToolKind::Arrow)
        } else if i == 2 {
            Some(ToolKind::Rect)
        } else if i == 3 {
            Some(ToolKind::Ellipse)
        } else if i == 4 {
            Some(ToolKind::Blur)
        } else if i == 5 {
            Some(ToolKind::Counter)
        } else {
            None
        }
    }
}

/// Law: toolbar positions and tools correspond one to one.
pub proof fn lemma_tool_index_roundtrip(t: ToolKind, i: int)
    ensures
        ToolKind::spec_from_index(t.spec_index()) == Some(t),
        ToolKind::spec_from_index(i) matches Some(u) ==> u.spec_index() == i,
{
}

/// Stroke color and width for new annotations.
#[derive(Debug, Clone, Copy, PartialEq, Eq, Structural)]
pub struct Style {
    pub color: Color,
    pub width: Scalar,
}

impl Style {
    pub open spec fn spec_default() -> Style {
        Style { color: Color { r: 255, g: 50, b: 50, a: 255 }, width: Scalar { bits: FOUR_BITS } }
    }
}

impl Default for Style {
    /// Red (255, 50, 50), opaque, 4 pixels wide.
    fn default() -> (s: Self)
        ensures
            s == Style::spec_default(),
    {
        Style { color: Color { r: 255, g: 50, b: 50, a: 255 }, width: Scalar { bits: FOUR_BITS } }
    }
}

/// A committed annotation, in image pixel coordinates.
#[derive(Debug, Clone)]
pub enum Annotation {
    Pencil { points: Vec<Pos>, color: Color, width: Scalar },
    Arrow { start: Pos, end: Pos, color: Color, width: Scalar },
    Rect { rect: Bounds, color: Color, width: Scalar },
    Ellipse { rect: Bounds, color: Color, width: Scalar },
    /// Obscures `rect` by pixelation with `block`-pixel cells.
    Blur { rect: Bounds, block: u32 },
    Counter { center: Pos, number: u32, color: Color, radius: Scalar },
}

} // verus!

verus! {

/// What undo/redo acts on: the committed annotations (oldest first), the
/// redo stack (most recently undone last) and the marker counter.
#[verifier::ext_equal]
pub struct History {
    pub done: Seq<Annotation>,
    pub undone: Seq<Annotation>,
    pub counter: u32,
}

impl History {
    /// Commit `a`: it goes on top, and nothing can be redone any more.
    pub open spec fn push(self, a: Annotation) -> History {
        History { done: self.done.push(a), undone: Seq::empty(), counter: self.counter }
    }

    /// Move the newest annotation to the redo stack; undoing a marker hands
    /// its number back (never below zero).
    pub open spec fn undo(self) -> History {
        if self.done.len() == 0 {
            self
        } else {
            let a = self.done.last();
            History {
                done: self.done.drop_last(),
                undone: self.undone.push(a),
                counter: if a is Counter {
                    if self.counter == 0 { 0 } else { (self.counter - 1) as u32 }
                } else {
                    self.counter
                },
            }
        }
    }

    /// Move the most recently undone annotation back; redoing a marker takes
    /// its number again.
    pub open spec fn redo(self) -> History {
        if self.undone.len() == 0 {
            self
        } else {
            let a = self.undone.last();
            History {
                done: self.done.push(a),
                undone: self.undone.drop_last(),
                counter: if a is Counter { (self.counter + 1) as u32 } else { self.counter },
            }
        }
    }

    /// Every annotation in the order it was drawn: the committed ones, then
    /// the undone ones from the next to be redone to the first undone.
    pub open spec fn timeline(self) -> Seq<Annotation> {
        self.done + self.undone.reverse()
    }

    /// Redoing cannot overflow the counter.
    pub open spec fn can_redo(self) -> bool {
        self.undone.len() > 0 && self.undone.last() is Counter ==> self.counter < u32::MAX
    }
}

/// Annotation list with undo/redo, current style and armed tool.
#[derive(Debug)]
pub struct Canvas {
    pub annotations: Vec<Annotation>,
    pub redo: Vec<Annotation>,
    pub style: Style,
    /// `None` means no drawing tool is armed: inside-drag of the selection
    /// rectangle moves it instead of starting an annotation.
    pub tool: Option<ToolKind>,
    /// The number the last placed marker carries (0 before the first).
    pub counter: u32,
}

impl Canvas {
    /// The undo/redo part of the canvas: committed and undone annotations and
    /// the marker counter. The style and the armed tool are stated beside it
    /// in each contract.
    pub open spec fn history(&self) -> History {
        History { done: self.annotations@, undone: self.redo@, counter: self.counter }
    }

    /// Commit an annotation; this clears the redo stack.
    pub fn push(&mut self, a: Annotation)
        ensures
            final(self).history() == old(self).history().push(a),
            final(self).style == old(self).style,
            final(self).tool == old(self).tool,
    {
        self.annotations.push(a);
        self.redo.clear();
    }

    pub fn undo(&mut self)
        ensures
            final(self).history() == old(self).history().undo(),
            final(self).style == old(self).style,
            final(self).tool == old(self).tool,
    {
        if let Some(a) = self.annotations.pop() {
            if let Annotation::Counter { .. } = a {
                self.counter = self.counter.saturating_sub(1);
            }
            self.redo.push(a);
        }
    }

    /// Whether a redo keeps the marker counter in range.
    pub fn can_redo(&self) -> (r: bool)
        ensures
            r == self.history().can_redo(),
    {
        let n = self.redo.len();
        if n == 0 {
            return true;
        }
        match &self.redo[n - 1] {
            Annotation::Counter { .. } => self.counter < u32::MAX,
            _ => true,
        }
    }

    pub fn redo(&mut self)
        requires
            old(self).history().can_redo(),
        ensures
            final(self).history() == old(self).history().redo(),
            final(self).style == old(self).style,
            final(self).tool == old(self).tool,
    {
        if let Some(a) = self.redo.pop() {
            if let Annotation::Counter { .. } = a {
                self.counter = self.counter + 1;
            }
            self.annotations.push(a);
        }
    }

    /// Take the next marker number.
    pub fn next_counter(&mut self) -> (n: u32)
        requires
            old(self).counter < u32::MAX,
        ensures
            n == old(self).counter + 1,
            final(self).counter == n,
            final(self).annotations@ == old(self).annotations@,
            final(self).redo@ == old(self).redo@,
            final(self).style == old(self).style,
            final(self).tool == old(self).tool,
    {
        self.counter = self.counter + 1;
        self.counter
    }
}

impl Default for Canvas {
    /// Empty, default style, no tool armed, counter at zero.
    fn default() -> (c: Self)
        ensures
            c.annotations@ == Seq::<Annotation>::empty(),
            c.redo@ == Seq::<Annotation>::empty(),
            c.style == Style::spec_default(),
            c.tool is None,
            c.counter == 0,
    {
        Canvas {
            annotations: Vec::new(),
            redo: Vec::new(),
            style: Style::default(),
            tool: None,
            counter: 0,
        }
    }
}

/// Law: redo restores what undo took away, unless the undone annotation is
/// a marker taken back at counter zero (the counter cannot go below zero).
pub proof fn lemma_redo_after_undo(h: History)
    requires
        h.done.len() > 0,
        !(h.done.last() is Counter && h.counter == 0),
    ensures
        h.undo().can_redo(),
        h.undo().redo() == h,
{
    assert(h.undo().redo().done =~= h.done);
    assert(h.undo().redo().undone =~= h.undone);
}

/// Law: undo takes back what redo brought back.
pub proof fn lemma_undo_after_redo(h: History)
    requires
        h.undone.len() > 0,
        h.can_redo(),
    ensures
        h.redo().undo() == h,
{
    assert(h.redo().undo().done =~= h.done);
    assert(h.redo().undo().undone =~= h.undone);
}

/// Law: undoing a fresh commit leaves the earlier annotations, with only the
/// new one available to redo.
pub proof fn lemma_undo_after_push(h: History, a: Annotation)
    ensures
        h.push(a).undo().done == h.done,
        h.push(a).undo().undone == seq![a],
{
    assert(h.push(a).undo().done =~= h.done);
    assert(h.push(a).undo().undone =~= seq![a]);
}

/// Law: undo and redo never lose, invent or reorder annotations: the
/// committed ones followed by the undone ones, newest undone last-but-first,
/// stay the same sequence.
pub proof fn lemma_undo_redo_keep_timeline(h: History)
    ensures
        h.undo().timeline() == h.timeline(),
        h.redo().timeline() == h.timeline(),
{
    assert(h.undo().timeline() =~= h.timeline());
    assert(h.redo().timeline() =~= h.timeline());
}

} // verus!
