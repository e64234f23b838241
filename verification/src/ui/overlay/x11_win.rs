//! The parts of the overlay window's X11 plumbing that are plain
//! computation: cursor-font glyph ids, keysym values, the keysym table
//! lookup and the RGBA to BGRA frame conversion.

use crate::error::Error;
use vstd::prelude::*;

verus! {

/// Stock X11 cursor-font glyphs (`cursorfont.h`).
pub const XC_CROSSHAIR: u16 = 34;
pub const XC_FLEUR: u16 = 52;
pub const XC_HAND1: u16 = 58;
pub const XC_LEFT_PTR: u16 = 68;

/// Keysyms the overlay reacts to (`keysymdef.h`).
pub const KS_ESCAPE: u32 = 0xff1b;
pub const KS_RETURN: u32 = 0xff0d;
pub const KS_KP_ENTER: u32 = 0xff8d;
pub const KS_C_LOWER: u32 = 0x0063;
pub const KS_Z_LOWER: u32 = 0x007a;
pub const KS_Y_LOWER: u32 = 0x0079;
pub const KS_1: u32 = 0x0031;
pub const KS_6: u32 = 0x0036;

/// The Control bit of an X11 key/button state mask.
pub const CONTROL_MASK: u16 = 4;

/// The server's keyboard mapping: `per_keycode` keysyms for each keycode
/// from `min_keycode` on, row by row.
#[derive(Debug, Clone)]
pub struct Keymap {
    pub syms: Vec<u32>,
    pub min_keycode: u8,
    pub per_keycode: u8,
}

impl Keymap {
    /// The unshifted keysym (column 0) of `keycode`, 0 when the keycode is
    /// below the table or past its end.
    pub open spec fn spec_keysym(self, keycode: u8) -> u32 {
        if keycode < self.min_keycode {
            0
        } else {
            let idx = (keycode - self.min_keycode) * self.per_keycode;
            if idx < self.syms@.len() {
                self.syms@[idx]
            } else {
                0
            }
        }
    }

    pub fn keysym(&self, keycode: u8) -> (k: u32)
        ensures
            k == self.spec_keysym(keycode),
    {
        if keycode < self.min_keycode {
            return 0;
        }
        let row: usize = (keycode - self.min_keycode) as usize;
        let cols: usize = self.per_keycode as usize;
        assert(row * cols <= 255 * 255) by (nonlinear_arith)
            requires
                row <= 255,
                cols <= 255,
        ;
        let idx: usize = row * cols;
        if idx < self.syms.len() {
            self.syms[idx]
        } else {
            0
        }
    }
}

/// The Control key is held in this key/button state mask.
pub fn ctrl_held(mask: u16) -> (r: bool)
    ensures
        r == (mask & CONTROL_MASK != 0),
{
    mask & CONTROL_MASK != 0
}

/// The first `n` pixels of `src` with red and blue exchanged and alpha set
/// opaque: byte `4p` takes byte `4p + 2`, byte `4p + 2` takes byte `4p`,
/// byte `4p + 1` stays, byte `4p + 3` becomes 0xff. The same shuffle turns
/// RGBA into BGRX and BGRX into RGBA.
pub open spec fn swap_rb(src: Seq<u8>, n: int) -> Seq<u8> {
    Seq::new(
        (4 * n) as nat,
        |k: int|
            if k % 4 == 0 {
                src[k + 2]
            } else if k % 4 == 1 {
                src[k]
            } else if k % 4 == 2 {
                src[k - 2]
            } else {
                0xffu8
            },
    )
}

/// Law: the shuffle undoes itself on a buffer whose fourth bytes are
/// already opaque.
pub proof fn lemma_swap_rb_involution(src: Seq<u8>, n: int)
    requires
        0 <= n,
        4 * n <= src.len(),
        forall|p: int| 0 <= p < n ==> #[trigger] src[4 * p + 3] == 0xff,
    ensures
        swap_rb(swap_rb(src, n), n) == src.subrange(0, 4 * n),
{
    assert forall|k: int| 0 <= k < 4 * n implies #[trigger] swap_rb(swap_rb(src, n), n)[k] == src[k] by {
        if k % 4 == 3 {
            assert(src[4 * (k / 4) + 3] == 0xff);
        }
    }
    assert(swap_rb(swap_rb(src, n), n) =~= src.subrange(0, 4 * n));
}

/// RGBA to BGRA, alpha forced opaque, four bytes at a time; a trailing
/// partial pixel of `dst` is left alone.
pub fn swap_rgba_to_bgra(src: &[u8], dst: &mut Vec<u8>)
    requires
        src@.len() == old(dst)@.len(),
    ensures
        final(dst)@ == swap_rb(src@, (src@.len() / 4) as int) + old(dst)@.subrange(
            4 * (src@.len() / 4) as int,
            src@.len() as int,
        ),
{
    let len: usize = src.len();
    let n: usize = len / 4;
    let mut i: usize = 0;
    while i < n
        invariant
            len == src@.len(),
            n == src@.len() / 4,
            i <= n,
            dst@.len() == src@.len(),
            forall|k: int| 0 <= k < 4 * i ==> #[trigger] dst@[k] == swap_rb(src@, n as int)[k],
            forall|k: int| 4 * i <= k < src@.len() ==> #[trigger] dst@[k] == old(dst)@[k],
        decreases n - i,
    {
        let o: usize = 4 * i;
        let r = src[o];
        let g = src[o + 1];
        let b = src[o + 2];
        dst.set(o, b);
        dst.set(o + 1, g);
        dst.set(o + 2, r);
        dst.set(o + 3, 0xff);
        i = i + 1;
    }
    proof {
        let expect = swap_rb(src@, n as int) + old(dst)@.subrange(4 * (n as int), len as int);
        assert forall|k: int| 0 <= k < dst@.len() implies #[trigger] dst@[k] == expect[k] by {}
        assert(dst@ =~= expect);
    }
}

/// A frame for a `width` x `height` window must hold exactly four bytes per
/// pixel.
pub fn check_frame(len: usize, width: u16, height: u16) -> (r: Result<(), Error>)
    ensures
        len == 4 * width * height ==> r is Ok,
        len != 4 * width * height ==> r == Err::<(), Error>(
            Error::FrameSize { got: len, expected: (4 * width * height) as usize },
        ),
{
    assert(width * height <= 0xffff * 0xffff) by (nonlinear_arith)
        requires
            width <= 0xffff,
            height <= 0xffff,
    ;
    let expected: u64 = 4 * (width as u64 * height as u64);
    assert(4 * width * height == 4 * (width * height)) by (nonlinear_arith);
    if len as u64 == expected {
        Ok(())
    } else {
        Err(Error::FrameSize { got: len, expected: expected as usize })
    }
}

} // verus!
