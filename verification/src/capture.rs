//! Screen bookkeeping and the pixel conversions of a capture: which screen
//! holds the pointer, the server's BGRX bytes to RGBA, and the cursor
//! image composited on top.

use crate::canvas::Color;
use crate::error::Error;
use crate::raster::{RgbaImage, bytes_from, pixel, lemma_bytes_from_ext};
use crate::ui::overlay::x11_win::swap_rb;
use vstd::prelude::*;

verus! {

/// A monitor's rectangle on the root window.
#[derive(Debug, Clone, Copy, PartialEq, Eq, Structural)]
pub struct Screen {
    pub x: i32,
    pub y: i32,
    pub width: u32,
    pub height: u32,
}

impl Screen {
    /// The point lies on this screen (left/top edges in, right/bottom out).
    pub open spec fn holds(self, x: int, y: int) -> bool {
        self.x <= x < self.x + self.width && self.y <= y < self.y + self.height
    }

    pub fn contains(&self, x: i32, y: i32) -> (r: bool)
        ensures
            r == self.holds(x as int, y as int),
    {
        let x: i64 = x as i64;
        let y: i64 = y as i64;
        x >= self.x as i64 && x < self.x as i64 + self.width as i64 && y >= self.y as i64 && y
            < self.y as i64 + self.height as i64
    }
}

/// A CRTC's geometry as the RandR extension reports it.
#[derive(Debug, Clone, Copy, PartialEq, Eq, Structural)]
pub struct Crtc {
    pub x: i16,
    pub y: i16,
    pub width: u16,
    pub height: u16,
}

pub open spec fn screen_of(c: Crtc) -> Screen {
    Screen { x: c.x as i32, y: c.y as i32, width: c.width as u32, height: c.height as u32 }
}

/// The screens of the outputs, in output order: outputs without a CRTC
/// (`None`) and CRTCs of zero width or height are left out.
pub open spec fn spec_screens(outputs: Seq<Option<Crtc>>) -> Seq<Screen>
    decreases outputs.len(),
{
    if outputs.len() == 0 {
        Seq::empty()
    } else {
        let rest = spec_screens(outputs.drop_last());
        match outputs.last() {
            Some(c) => if c.width != 0 && c.height != 0 {
                rest.push(screen_of(c))
            } else {
                rest
            },
            None => rest,
        }
    }
}

pub fn screens_from_outputs(outputs: &Vec<Option<Crtc>>) -> (r: Vec<Screen>)
    ensures
        r@ == spec_screens(outputs@),
{
    let mut screens: Vec<Screen> = Vec::new();
    let n = outputs.len();
    let mut i: usize = 0;
    while i < n
        invariant
            n == outputs@.len(),
            i <= n,
            screens@ == spec_screens(outputs@.take(i as int)),
        decreases n - i,
    {
        proof {
            assert(outputs@.take(i + 1).drop_last() =~= outputs@.take(i as int));
        }
        if let Some(c) = outputs[i] {
            if c.width != 0 && c.height != 0 {
                screens.push(
                    Screen { x: c.x as i32, y: c.y as i32, width: c.width as u32, height: c.height as u32 },
                );
            }
        }
        i = i + 1;
    }
    proof {
        assert(outputs@.take(n as int) =~= outputs@);
    }
    screens
}

/// The first screen holding (`x`, `y`).
pub fn screen_at(screens: &Vec<Screen>, x: i32, y: i32) -> (r: Result<Screen, Error>)
    ensures
        match r {
            Ok(s) => exists|i: int|
                0 <= i < screens@.len() && screens@[i] == s && s.holds(x as int, y as int) && forall|
                    k: int,
                | 0 <= k < i ==> !(#[trigger] screens@[k]).holds(x as int, y as int),
            Err(e) => e == Error::CursorOffScreen { x, y } && forall|k: int|
                0 <= k < screens@.len() ==> !(#[trigger] screens@[k]).holds(x as int, y as int),
        },
{
    let n = screens.len();
    let mut i: usize = 0;
    while i < n
        invariant
            n == screens@.len(),
            i <= n,
            forall|k: int| 0 <= k < i ==> !(#[trigger] screens@[k]).holds(x as int, y as int),
        decreases n - i,
    {
        if screens[i].contains(x, y) {
            return Ok(screens[i]);
        }
        i = i + 1;
    }
    Err(Error::CursorOffScreen { x, y })
}

/// The RGBA image of a `w` x `h` capture whose bytes the server sent as
/// BGRX (little-endian 24-bit TrueColor): red and blue exchanged, alpha
/// opaque. Fails if `w * h` overflows or the data is short.
pub fn bgrx_to_rgba(data: &[u8], w: u32, h: u32) -> (r: Result<RgbaImage, Error>)
    requires
        w * h <= usize::MAX ==> 4 * w * h <= usize::MAX,
    ensures
        w * h > usize::MAX ==> r == Err::<RgbaImage, Error>(Error::DimensionsOverflow),
        w * h <= usize::MAX && data@.len() < 4 * w * h ==> r == Err::<RgbaImage, Error>(
            Error::ShortImage { got: data@.len() as usize, expected: (4 * w * h) as usize },
        ),
        w * h <= usize::MAX && data@.len() >= 4 * w * h ==> (r matches Ok(img) && img.wf()
            && img.width == w && img.height == h && img.data@ == swap_rb(data@, w * h)),
{
    proof {
        assert(4 * w * h == (w * h) * 4) by (nonlinear_arith);
    }
    let pixel_count: usize = match (w as usize).checked_mul(h as usize) {
        Some(n) => n,
        None => {
            return Err(Error::DimensionsOverflow);
        },
    };
    let needed: usize = pixel_count * 4;
    if data.len() < needed {
        return Err(Error::ShortImage { got: data.len(), expected: needed });
    }
    let mut out: Vec<u8> = Vec::new();
    let mut p: usize = 0;
    while p < pixel_count
        invariant
            pixel_count == w * h,
            needed == 4 * pixel_count,
            needed <= data@.len(),
            p <= pixel_count,
            out@.len() == 4 * p,
            forall|k: int| 0 <= k < 4 * p ==> #[trigger] out@[k] == swap_rb(data@, pixel_count as int)[k],
        decreases pixel_count - p,
    {
        let o = 4 * p;
        out.push(data[o + 2]);
        out.push(data[o + 1]);
        out.push(data[o]);
        out.push(0xff);
        p = p + 1;
    }
    proof {
        assert(out@ =~= swap_rb(data@, pixel_count as int));
        assert(4 * w * h == 4 * (w * h)) by (nonlinear_arith);
    }
    Ok(RgbaImage { width: w, height: h, data: out })
}

/// The XFixes cursor image: position of the pointer, size, hotspot, and
/// one premultiplied ARGB word per pixel, row by row.
#[derive(Debug, Clone)]
pub struct CursorImage {
    pub x: i16,
    pub y: i16,
    pub width: u16,
    pub height: u16,
    pub xhot: u16,
    pub yhot: u16,
    pub pixels: Vec<u32>,
}

pub open spec fn argb_alpha(p: u32) -> u32 {
    (p >> 24u32) & 0xffu32
}

pub open spec fn argb_red(p: u32) -> u32 {
    (p >> 16u32) & 0xffu32
}

pub open spec fn argb_green(p: u32) -> u32 {
    (p >> 8u32) & 0xffu32
}

pub open spec fn argb_blue(p: u32) -> u32 {
    p & 0xffu32
}

/// Premultiplied source channel `s` with alpha `a` over destination `d`,
/// clamped to 255.
pub open spec fn over(d: u8, s: u32, a: u32) -> u8 {
    let v = s + d * (255 - a) / 255;
    (if v > 255 { 255 } else { v }) as u8
}

/// Destination pixel after compositing cursor pixel `p` on it: unchanged
/// where the cursor is transparent; the destination's alpha is kept.
pub open spec fn composite_px(old: Color, p: u32) -> Color {
    let a = argb_alpha(p);
    if a == 0 {
        old
    } else {
        Color {
            r: over(old.r, argb_red(p), a),
            g: over(old.g, argb_green(p), a),
            b: over(old.b, argb_blue(p), a),
            a: old.a,
        }
    }
}

/// Cursor pixel (`i`, `j`), if the cursor has it.
pub open spec fn cursor_pixel(cur: CursorImage, i: int, j: int) -> Option<u32> {
    if 0 <= i < cur.width && 0 <= j < cur.height && j * cur.width + i < cur.pixels@.len() {
        Some(cur.pixels@[j * cur.width + i])
    } else {
        None
    }
}

/// Where the cursor image's top-left lands in a capture of the screen whose
/// origin is (`sx`, `sy`): pointer minus hotspot minus screen origin.
pub open spec fn cursor_origin(cur: CursorImage, sx: int, sy: int) -> (int, int) {
    (cur.x - cur.xhot - sx, cur.y - cur.yhot - sy)
}

/// The capture with the cursor composited on it.
pub open spec fn spec_composite(data: Seq<u8>, width: int, height: int, cur: CursorImage, sx: int, sy: int) -> Seq<u8> {
    let (ox, oy) = cursor_origin(cur, sx, sy);
    bytes_from(
        width,
        height,
        |x: int, y: int|
            match cursor_pixel(cur, x - ox, y - oy) {
                Some(p) => composite_px(pixel(data, width, x, y), p),
                None => pixel(data, width, x, y),
            },
    )
}

fn over_exec(d: u8, s: u32, a: u32) -> (r: u8)
    requires
        s <= 255,
        1 <= a <= 255,
    ensures
        r == over(d, s, a),
{
    let inv: u32 = 255 - a;
    assert(d * inv <= 255 * 255) by (nonlinear_arith)
        requires
            d <= 255,
            inv <= 255,
    ;
    let v: u32 = s + (d as u32 * inv) / 255;
    if v > 255 {
        255
    } else {
        v as u8
    }
}

/// Composite the pointer's cursor image over a capture of the screen whose
/// origin is (`screen_x`, `screen_y`).
pub fn composite_cursor(img: &mut RgbaImage, cursor: &CursorImage, screen_x: i32, screen_y: i32)
    requires
        old(img).wf(),
    ensures
        final(img).wf(),
        final(img).width == old(img).width,
        final(img).height == old(img).height,
        final(img).data@ == spec_composite(
            old(img).data@,
            old(img).width as int,
            old(img).height as int,
            *cursor,
            screen_x as int,
            screen_y as int,
        ),
{
    let ghost old_img = *img;
    let cw: i64 = cursor.width as i64;
    let ch: i64 = cursor.height as i64;
    let ox: i64 = cursor.x as i64 - cursor.xhot as i64 - screen_x as i64;
    let oy: i64 = cursor.y as i64 - cursor.yhot as i64 - screen_y as i64;
    let img_w: i64 = img.width as i64;
    let img_h: i64 = img.height as i64;
    let npix: usize = cursor.pixels.len();
    let mut j: i64 = 0;
    while j < ch
        invariant
            img.wf(),
            img.width == old_img.width,
            img.height == old_img.height,
            img_w == img.width,
            img_h == img.height,
            cw == cursor.width,
            ch == cursor.height,
            npix == cursor.pixels@.len(),
            (ox as int, oy as int) == cursor_origin(*cursor, screen_x as int, screen_y as int),
            0 <= j <= ch,
            forall|x: int, y: int|
                img.in_bounds(x, y) ==> #[trigger] img.at(x, y) == if y - oy < j && cursor_pixel(*cursor, x - ox, y - oy) is Some {
                    composite_px(old_img.at(x, y), cursor_pixel(*cursor, x - ox, y - oy)->0)
                } else {
                    old_img.at(x, y)
                },
        decreases ch - j,
    {
        let mut i: i64 = 0;
        while i < cw
            invariant
                img.wf(),
                img.width == old_img.width,
                img.height == old_img.height,
                img_w == img.width,
                img_h == img.height,
                cw == cursor.width,
                ch == cursor.height,
                npix == cursor.pixels@.len(),
                (ox as int, oy as int) == cursor_origin(*cursor, screen_x as int, screen_y as int),
                0 <= j < ch,
                0 <= i <= cw,
                forall|x: int, y: int|
                    img.in_bounds(x, y) ==> #[trigger] img.at(x, y) == if (y - oy < j || (y - oy == j
                        && x - ox < i)) && cursor_pixel(*cursor, x - ox, y - oy) is Some {
                        composite_px(old_img.at(x, y), cursor_pixel(*cursor, x - ox, y - oy)->0)
                    } else {
                        old_img.at(x, y)
                    },
            decreases cw - i,
        {
            let dy: i64 = oy + j;
            let dx: i64 = ox + i;
            if 0 <= dy && dy < img_h && 0 <= dx && dx < img_w {
                assert(j * cw + i < 0x1_0000_0000) by (nonlinear_arith)
                    requires
                        0 <= j < ch,
                        0 <= i < cw,
                        ch <= 0xffff,
                        cw <= 0xffff,
                ;
                let idx: u64 = (j * cw + i) as u64;
                if idx < npix as u64 {
                    let src: u32 = cursor.pixels[idx as usize];
                    let a: u32 = (src >> 24u32) & 0xffu32;
                    if a != 0 {
                        let pr: u32 = (src >> 16u32) & 0xffu32;
                        let pg: u32 = (src >> 8u32) & 0xffu32;
                        let pb: u32 = src & 0xffu32;
                        assert(((src >> 24u32) & 0xffu32) <= 255 && ((src >> 16u32) & 0xffu32) <= 255
                            && ((src >> 8u32) & 0xffu32) <= 255 && (src & 0xffu32) <= 255)
                            by (bit_vector);
                        let d = img.get(dx as u32, dy as u32);
                        let c = Color {
                            r: over_exec(d.r, pr, a),
                            g: over_exec(d.g, pg, a),
                            b: over_exec(d.b, pb, a),
                            a: d.a,
                        };
                        img.put(dx as u32, dy as u32, c);
                    }
                }
            }
            i = i + 1;
        }
        j = j + 1;
    }
    proof {
        let g = |x: int, y: int|
            match cursor_pixel(*cursor, x - ox, y - oy) {
                Some(p) => composite_px(pixel(old_img.data@, old_img.width as int, x, y), p),
                None => pixel(old_img.data@, old_img.width as int, x, y),
            };
        assert forall|x: int, y: int| 0 <= x < img.width && 0 <= y < img.height implies #[trigger] pixel(
            img.data@,
            img.width as int,
            x,
            y,
        ) == g(x, y) by {
            assert(img.at(x, y) == pixel(img.data@, img.width as int, x, y));
        }
        lemma_bytes_from_ext(img.width as int, img.height as int, img.data@, g);
    }
}

/// Law: a transparent cursor pixel leaves the capture as it was, and an
/// opaque one replaces the color with the cursor's own (keeping alpha).
pub proof fn lemma_composite_extremes(old: Color, p: u32)
    ensures
        argb_alpha(p) == 0 ==> composite_px(old, p) == old,
        argb_alpha(p) == 255 ==> composite_px(old, p) == (Color {
            r: argb_red(p) as u8,
            g: argb_green(p) as u8,
            b: argb_blue(p) as u8,
            a: old.a,
        }),
{
    assert(((p >> 16u32) & 0xffu32) <= 255 && ((p >> 8u32) & 0xffu32) <= 255 && (p & 0xffu32) <= 255)
        by (bit_vector);
}

/// Law: turning the server's bytes into RGBA and the RGBA back into the
/// window's BGRX gives the server's bytes again (with the padding byte
/// opaque).
pub proof fn lemma_capture_display_roundtrip(data: Seq<u8>, n: int)
    requires
        0 <= n,
        4 * n <= data.len(),
        forall|p: int| 0 <= p < n ==> #[trigger] data[4 * p + 3] == 0xff,
    ensures
        swap_rb(swap_rb(data, n), n) == data.subrange(0, 4 * n),
{
    crate::ui::overlay::x11_win::lemma_swap_rb_involution(data, n);
}

} // verus!
