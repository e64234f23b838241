use vstd::prelude::*;

verus! {

/// A point in window pixel coordinates.
#[derive(Debug, Clone, Copy, PartialEq, Eq, Structural)]
pub struct Pos {
    pub x: i32,
    pub y: i32,
}

/// An axis-aligned rectangle: top-left corner plus non-negative extent.
#[derive(Debug, Clone, Copy, PartialEq, Eq, Structural)]
pub struct Bounds {
    pub x: i32,
    pub y: i32,
    pub w: u32,
    pub h: u32,
}

pub open spec fn min_int(a: int, b: int) -> int {
    if a <= b { a } else { b }
}

pub open spec fn abs_int(a: int) -> int {
    if a < 0 { -a } else { a }
}

impl Bounds {
    pub open spec fn left(self) -> int {
        self.x as int
    }

    pub open spec fn top(self) -> int {
        self.y as int
    }

    pub open spec fn right(self) -> int {
        self.x + self.w
    }

    pub open spec fn bottom(self) -> int {
        self.y + self.h
    }

    /// The closed rectangle holds `p` (edges included).
    pub open spec fn holds(self, p: Pos) -> bool {
        self.left() <= p.x <= self.right() && self.top() <= p.y <= self.bottom()
    }

    /// The rectangle spanned by two opposite corners.
    pub open spec fn spanned(a: Pos, b: Pos) -> Bounds {
        Bounds {
            x: min_int(a.x as int, b.x as int) as i32,
            y: min_int(a.y as int, b.y as int) as i32,
            w: abs_int(a.x - b.x) as u32,
            h: abs_int(a.y - b.y) as u32,
        }
    }

    /// The smallest rectangle with `a` and `b` as opposite corners.
    pub fn from_two(a: Pos, b: Pos) -> (r: Bounds)
        ensures
            r == Bounds::spanned(a, b),
            r.left() == min_int(a.x as int, b.x as int),
            r.top() == min_int(a.y as int, b.y as int),
            r.w == abs_int(a.x - b.x),
            r.h == abs_int(a.y - b.y),
    {
        let x: i32 = if a.x <= b.x { a.x } else { b.x };
        let y: i32 = if a.y <= b.y { a.y } else { b.y };
        let w: u32 = if a.x <= b.x {
            (b.x as i64 - a.x as i64) as u32
        } else {
            (a.x as i64 - b.x as i64) as u32
        };
        let h: u32 = if a.y <= b.y {
            (b.y as i64 - a.y as i64) as u32
        } else {
            (a.y as i64 - b.y as i64) as u32
        };
        Bounds { x, y, w, h }
    }
}

/// Law: the spanned rectangle does not depend on the order of its corners.
pub proof fn lemma_from_two_symmetric(a: Pos, b: Pos)
    ensures
        Bounds::spanned(a, b) == Bounds::spanned(b, a),
{
}

/// Law: the spanned rectangle holds both corners, and every rectangle that
/// holds both corners also holds it.
pub proof fn lemma_from_two_smallest(a: Pos, b: Pos, c: Bounds)
    ensures
        Bounds::spanned(a, b).holds(a),
        Bounds::spanned(a, b).holds(b),
        c.holds(a) && c.holds(b) ==> c.left() <= Bounds::spanned(a, b).left()
            && Bounds::spanned(a, b).right() <= c.right() && c.top() <= Bounds::spanned(
            a,
            b,
        ).top() && Bounds::spanned(a, b).bottom() <= c.bottom(),
{
}

} // verus!
