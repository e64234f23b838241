//! An RGBA8 pixel buffer and the per-pixel operations the capture and
//! overlay pipelines perform on it.

use crate::canvas::Color;
use vstd::prelude::*;

verus! {

/// Byte offset of pixel (`x`, `y`) in a row-major RGBA buffer `w` pixels wide.
pub open spec fn pix_index(w: int, x: int, y: int) -> int {
    4 * (y * w + x)
}

/// The pixel at (`x`, `y`).
pub open spec fn pixel(data: Seq<u8>, w: int, x: int, y: int) -> Color {
    let i = pix_index(w, x, y);
    Color { r: data[i], g: data[i + 1], b: data[i + 2], a: data[i + 3] }
}

pub proof fn lemma_pix_bounds(w: int, h: int, x: int, y: int)
    requires
        0 <= x < w,
        0 <= y < h,
    ensures
        0 <= pix_index(w, x, y),
        pix_index(w, x, y) + 4 <= 4 * w * h,
        0 <= y * w,
        y * w + x < w * h,
        4 * w * h == 4 * (w * h),
{
    assert(y * w + x < h * w) by (nonlinear_arith)
        requires
            0 <= x < w,
            0 <= y < h,
    ;
    assert(0 <= y * w) by (nonlinear_arith)
        requires
            0 <= y,
            0 <= w,
    ;
    assert(4 * w * h == 4 * (h * w)) by (nonlinear_arith);
    assert(w * h == h * w) by (nonlinear_arith);
}

pub proof fn lemma_pix_distinct(w: int, h: int, x: int, y: int, x2: int, y2: int)
    requires
        0 <= x < w,
        0 <= y < h,
        0 <= x2 < w,
        0 <= y2 < h,
        x != x2 || y != y2,
    ensures
        pix_index(w, x, y) + 4 <= pix_index(w, x2, y2) || pix_index(w, x2, y2) + 4 <= pix_index(
            w,
            x,
            y,
        ),
{
    if y == y2 {
    } else if y < y2 {
        assert(y * w + x < y2 * w + x2) by (nonlinear_arith)
            requires
                0 <= x < w,
                0 <= x2,
                y < y2,
        ;
    } else {
        assert(y2 * w + x2 < y * w + x) by (nonlinear_arith)
            requires
                0 <= x2 < w,
                0 <= x,
                y2 < y,
        ;
    }
}

/// Channel `i` (0 red, 1 green, 2 blue, 3 alpha) of a color.
pub open spec fn chan(c: Color, i: int) -> u8 {
    if i == 0 {
        c.r
    } else if i == 1 {
        c.g
    } else if i == 2 {
        c.b
    } else {
        c.a
    }
}

/// The bytes of the `w` x `h` image whose pixel (x, y) is `f(x, y)`.
pub open spec fn bytes_from(w: int, h: int, f: spec_fn(int, int) -> Color) -> Seq<u8> {
    Seq::new((4 * w * h) as nat, |k: int| chan(f((k / 4) % w, (k / 4) / w), k % 4))
}

pub proof fn lemma_index_inverse(w: int, h: int, x: int, y: int, c: int)
    requires
        0 <= x < w,
        0 <= y < h,
        0 <= c < 4,
    ensures
        (pix_index(w, x, y) + c) / 4 == y * w + x,
        (pix_index(w, x, y) + c) % 4 == c,
        ((pix_index(w, x, y) + c) / 4) % w == x,
        ((pix_index(w, x, y) + c) / 4) / w == y,
{
    let k = pix_index(w, x, y) + c;
    assert(k == (y * w + x) * 4 + c) by (nonlinear_arith)
        requires
            k == 4 * (y * w + x) + c,
    ;
    vstd::arithmetic::div_mod::lemma_fundamental_div_mod_converse(k, 4, y * w + x, c);
    vstd::arithmetic::div_mod::lemma_fundamental_div_mod_converse(y * w + x, w, y, x);
}

pub proof fn lemma_index_decompose(w: int, h: int, k: int)
    requires
        0 < w,
        0 <= h,
        0 <= k < 4 * w * h,
    ensures
        0 <= (k / 4) % w < w,
        0 <= (k / 4) / w < h,
        pix_index(w, (k / 4) % w, (k / 4) / w) + k % 4 == k,
        0 <= k % 4 < 4,
{
    let q = k / 4;
    vstd::arithmetic::div_mod::lemma_fundamental_div_mod(k, 4);
    vstd::arithmetic::div_mod::lemma_fundamental_div_mod(q, w);
    let x = q % w;
    let y = q / w;
    assert(q < w * h) by (nonlinear_arith)
        requires
            k == 4 * q + k % 4,
            0 <= k % 4 < 4,
            k < 4 * w * h,
    ;
    assert(0 <= q) by (nonlinear_arith)
        requires
            k == 4 * q + k % 4,
            k % 4 < 4,
            0 <= k,
    ;
    assert(0 <= y < h) by (nonlinear_arith)
        requires
            q == w * y + x,
            0 <= x < w,
            0 <= q < w * h,
    ;
    assert(pix_index(w, x, y) + k % 4 == k) by (nonlinear_arith)
        requires
            q == w * y + x,
            k == 4 * q + k % 4,
    ;
}

/// Reading a pixel of `bytes_from` gives back the generating function.
pub proof fn lemma_bytes_from_pixel(w: int, h: int, f: spec_fn(int, int) -> Color, x: int, y: int)
    requires
        0 <= x < w,
        0 <= y < h,
    ensures
        pixel(bytes_from(w, h, f), w, x, y) == f(x, y),
{
    lemma_pix_bounds(w, h, x, y);
    lemma_index_inverse(w, h, x, y, 0);
    lemma_index_inverse(w, h, x, y, 1);
    lemma_index_inverse(w, h, x, y, 2);
    lemma_index_inverse(w, h, x, y, 3);
}

/// A buffer is determined by its pixels.
pub proof fn lemma_bytes_from_ext(w: int, h: int, data: Seq<u8>, f: spec_fn(int, int) -> Color)
    requires
        0 <= w,
        0 <= h,
        data.len() == 4 * w * h,
        forall|x: int, y: int| 0 <= x < w && 0 <= y < h ==> #[trigger] pixel(data, w, x, y) == f(x, y),
    ensures
        data == bytes_from(w, h, f),
{
    assert(0 <= 4 * w * h) by (nonlinear_arith)
        requires
            0 <= w,
            0 <= h,
    ;
    assert forall|k: int| 0 <= k < data.len() implies data[k] == #[trigger] bytes_from(w, h, f)[k] by {
        if w == 0 {
            assert(4 * w * h == 0) by (nonlinear_arith)
                requires
                    w == 0,
            ;
        }
        lemma_index_decompose(w, h, k);
        let x = (k / 4) % w;
        let y = (k / 4) / w;
        assert(pixel(data, w, x, y) == f(x, y));
    }
    assert(data =~= bytes_from(w, h, f));
}

/// An RGBA8 image: `data` holds `width * height` pixels row by row, four
/// bytes (red, green, blue, alpha) each.
#[derive(Debug, Clone)]
pub struct RgbaImage {
    pub width: u32,
    pub height: u32,
    pub data: Vec<u8>,
}

impl RgbaImage {
    /// The buffer holds exactly `width * height` pixels.
    pub open spec fn wf(&self) -> bool {
        self.data@.len() == 4 * self.width * self.height
    }

    /// (`x`, `y`) is a pixel of the image.
    pub open spec fn in_bounds(&self, x: int, y: int) -> bool {
        0 <= x < self.width && 0 <= y < self.height
    }

    pub open spec fn at(&self, x: int, y: int) -> Color {
        pixel(self.data@, self.width as int, x, y)
    }

    /// A `width` x `height` image of transparent black.
    pub fn new(width: u32, height: u32) -> (img: RgbaImage)
        requires
            4 * width * height <= usize::MAX,
        ensures
            img.wf(),
            img.width == width,
            img.height == height,
            forall|x: int, y: int|
                img.in_bounds(x, y) ==> #[trigger] img.at(x, y) == (Color { r: 0, g: 0, b: 0, a: 0 }),
    {
        assert(4 * width * height <= 4 * 0xffff_ffffu64 * 0xffff_ffffu64) by (nonlinear_arith)
            requires
                width <= 0xffff_ffffu64,
                height <= 0xffff_ffffu64,
        ;
        let n128: u128 = 4 * width as u128 * height as u128;
        let n: usize = n128 as usize;
        let mut data: Vec<u8> = Vec::new();
        let mut i: usize = 0;
        while i < n
            invariant
                i <= n,
                data@.len() == i,
                forall|k: int| 0 <= k < i ==> data@[k] == 0,
            decreases n - i,
        {
            data.push(0);
            i = i + 1;
        }
        let img = RgbaImage { width, height, data };
        proof {
            assert forall|x: int, y: int| img.in_bounds(x, y) implies #[trigger] img.at(x, y) == (
            Color { r: 0, g: 0, b: 0, a: 0 }) by {
                lemma_pix_bounds(width as int, height as int, x, y);
            }
        }
        img
    }

    pub fn get(&self, x: u32, y: u32) -> (c: Color)
        requires
            self.wf(),
            x < self.width,
            y < self.height,
        ensures
            c == self.at(x as int, y as int),
    {
        proof {
            lemma_pix_bounds(self.width as int, self.height as int, x as int, y as int);
        }
        let len: usize = self.data.len();
        let i: usize = 4 * (y as usize * self.width as usize + x as usize);
        Color { r: self.data[i], g: self.data[i + 1], b: self.data[i + 2], a: self.data[i + 3] }
    }

    pub fn put(&mut self, x: u32, y: u32, c: Color)
        requires
            old(self).wf(),
            x < old(self).width,
            y < old(self).height,
        ensures
            final(self).wf(),
            final(self).width == old(self).width,
            final(self).height == old(self).height,
            forall|x2: int, y2: int|
                final(self).in_bounds(x2, y2) ==> #[trigger] final(self).at(x2, y2) == if x2 == x
                    && y2 == y {
                    c
                } else {
                    old(self).at(x2, y2)
                },
    {
        proof {
            lemma_pix_bounds(self.width as int, self.height as int, x as int, y as int);
        }
        let len: usize = self.data.len();
        let i: usize = 4 * (y as usize * self.width as usize + x as usize);
        self.data.set(i, c.r);
        self.data.set(i + 1, c.g);
        self.data.set(i + 2, c.b);
        self.data.set(i + 3, c.a);
        proof {
            assert forall|x2: int, y2: int| self.in_bounds(x2, y2) implies #[trigger] self.at(x2, y2) == if x2 == x && y2 == y {
                c
            } else {
                old(self).at(x2, y2)
            } by {
                lemma_pix_bounds(self.width as int, self.height as int, x2, y2);
                if !(x2 == x && y2 == y) {
                    lemma_pix_distinct(
                        self.width as int,
                        self.height as int,
                        x as int,
                        y as int,
                        x2,
                        y2,
                    );
                }
            }
        }
    }
}

} // verus!

verus! {

/// The `w` x `h` block of `data` (`sw` pixels wide) whose top-left corner
/// is (`x`, `y`).
pub open spec fn spec_crop(data: Seq<u8>, sw: int, x: int, y: int, w: int, h: int) -> Seq<u8> {
    bytes_from(w, h, |i: int, j: int| pixel(data, sw, x + i, y + j))
}

/// `bottom` (`bw` x `bh`) with `top` (`tw` x `th`) laid over it at
/// (`ox`, `oy`); the parts of `top` that fall outside are dropped.
pub open spec fn spec_paste(
    bottom: Seq<u8>,
    bw: int,
    bh: int,
    top: Seq<u8>,
    tw: int,
    th: int,
    ox: int,
    oy: int,
) -> Seq<u8> {
    bytes_from(
        bw,
        bh,
        |x: int, y: int|
            if ox <= x < ox + tw && oy <= y < oy + th {
                pixel(top, tw, x - ox, y - oy)
            } else {
                pixel(bottom, bw, x, y)
            },
    )
}

pub proof fn lemma_sub_area(w: int, h: int, sw: int, sh: int)
    requires
        0 <= w <= sw,
        0 <= h <= sh,
    ensures
        4 * w * h <= 4 * sw * sh,
{
    assert(4 * w * h <= 4 * sw * sh) by (nonlinear_arith)
        requires
            0 <= w <= sw,
            0 <= h <= sh,
    ;
}

impl RgbaImage {
    /// The `w` x `h` block whose top-left corner is (`x`, `y`).
    pub fn crop(&self, x: u32, y: u32, w: u32, h: u32) -> (out: RgbaImage)
        requires
            self.wf(),
            x + w <= self.width,
            y + h <= self.height,
        ensures
            out.wf(),
            out.width == w,
            out.height == h,
            out.data@ == spec_crop(self.data@, self.width as int, x as int, y as int, w as int, h as int),
    {
        let len = self.data.len();
        proof {
            lemma_sub_area(w as int, h as int, self.width as int, self.height as int);
        }
        let mut out = RgbaImage::new(w, h);
        let mut j: u32 = 0;
        while j < h
            invariant
                self.wf(),
                x + w <= self.width,
                y + h <= self.height,
                j <= h,
                out.wf(),
                out.width == w,
                out.height == h,
                forall|ii: int, jj: int|
                    out.in_bounds(ii, jj) && jj < j ==> #[trigger] out.at(ii, jj) == self.at(
                        x + ii,
                        y + jj,
                    ),
            decreases h - j,
        {
            let mut i: u32 = 0;
            while i < w
                invariant
                    self.wf(),
                    x + w <= self.width,
                    y + h <= self.height,
                    j < h,
                    i <= w,
                    out.wf(),
                    out.width == w,
                    out.height == h,
                    forall|ii: int, jj: int|
                        out.in_bounds(ii, jj) && (jj < j || (jj == j && ii < i)) ==> #[trigger] out.at(
                            ii,
                            jj,
                        ) == self.at(x + ii, y + jj),
                decreases w - i,
            {
                let c = self.get(x + i, y + j);
                out.put(i, j, c);
                i = i + 1;
            }
            j = j + 1;
        }
        proof {
            let f = |i: int, j: int| pixel(self.data@, self.width as int, x + i, y + j);
            assert forall|ii: int, jj: int| 0 <= ii < w && 0 <= jj < h implies #[trigger] pixel(
                out.data@,
                w as int,
                ii,
                jj,
            ) == f(ii, jj) by {
                assert(out.at(ii, jj) == self.at(x + ii, y + jj));
            }
            lemma_bytes_from_ext(w as int, h as int, out.data@, f);
        }
        out
    }

    /// Lay `top` over this image with its top-left corner at (`ox`, `oy`);
    /// what falls outside is dropped.
    pub fn paste(&mut self, top: &RgbaImage, ox: i64, oy: i64)
        requires
            old(self).wf(),
            top.wf(),
        ensures
            final(self).wf(),
            final(self).width == old(self).width,
            final(self).height == old(self).height,
            final(self).data@ == spec_paste(
                old(self).data@,
                old(self).width as int,
                old(self).height as int,
                top.data@,
                top.width as int,
                top.height as int,
                ox as int,
                oy as int,
            ),
    {
        let ghost old_self = *self;
        let bw: i128 = self.width as i128;
        let bh: i128 = self.height as i128;
        let x0: i128 = if ox as i128 > 0 { ox as i128 } else { 0 };
        let y0: i128 = if oy as i128 > 0 { oy as i128 } else { 0 };
        let x1: i128 = if ox as i128 + top.width as i128 <= bw { ox as i128 + top.width as i128 } else { bw };
        let y1: i128 = if oy as i128 + top.height as i128 <= bh { oy as i128 + top.height as i128 } else { bh };
        if x0 < x1 && y0 < y1 {
            let mut j: i128 = y0;
            while j < y1
                invariant
                    self.wf(),
                    top.wf(),
                    self.width == old_self.width,
                    self.height == old_self.height,
                    bw == self.width,
                    bh == self.height,
                    x0 == (if ox > 0 { ox as int } else { 0 }),
                    y0 == (if oy > 0 { oy as int } else { 0 }),
                    x1 == (if ox + top.width <= bw { ox + top.width } else { bw as int }),
                    y1 == (if oy + top.height <= bh { oy + top.height } else { bh as int }),
                    x0 < x1,
                    y0 <= j <= y1,
                    forall|x: int, y: int|
                        self.in_bounds(x, y) ==> #[trigger] self.at(x, y) == if (ox <= x < ox + top.width && oy <= y < oy + top.height) && y < j {
                            pixel(top.data@, top.width as int, x - ox, y - oy)
                        } else {
                            old_self.at(x, y)
                        },
                decreases y1 - j,
            {
                let mut i: i128 = x0;
                while i < x1
                    invariant
                        self.wf(),
                        top.wf(),
                        self.width == old_self.width,
                        self.height == old_self.height,
                        bw == self.width,
                        bh == self.height,
                        x0 == (if ox > 0 { ox as int } else { 0 }),
                        y0 == (if oy > 0 { oy as int } else { 0 }),
                        x1 == (if ox + top.width <= bw { ox + top.width } else { bw as int }),
                        y1 == (if oy + top.height <= bh { oy + top.height } else { bh as int }),
                        x0 <= i <= x1,
                        y0 <= j < y1,
                        forall|x: int, y: int|
                            self.in_bounds(x, y) ==> #[trigger] self.at(x, y) == if (ox <= x < ox + top.width && oy <= y < oy + top.height) && (y < j
                                || (y == j && x < i)) {
                                pixel(top.data@, top.width as int, x - ox, y - oy)
                            } else {
                                old_self.at(x, y)
                            },
                    decreases x1 - i,
                {
                    let c = top.get((i - ox as i128) as u32, (j - oy as i128) as u32);
                    self.put(i as u32, j as u32, c);
                    i = i + 1;
                }
                j = j + 1;
            }
        }
        proof {
            let f = |x: int, y: int|
                if ox <= x < ox + top.width && oy <= y < oy + top.height {
                    pixel(top.data@, top.width as int, x - ox, y - oy)
                } else {
                    pixel(old_self.data@, old_self.width as int, x, y)
                };
            assert forall|x: int, y: int| 0 <= x < self.width && 0 <= y < self.height implies #[trigger] pixel(
                self.data@,
                self.width as int,
                x,
                y,
            ) == f(x, y) by {
                assert(self.at(x, y) == pixel(self.data@, self.width as int, x, y));
            }
            lemma_bytes_from_ext(self.width as int, self.height as int, self.data@, f);
        }
    }
}

/// Law: cutting a region out and pasting it back where it was changes
/// nothing.
pub proof fn lemma_crop_paste_back(data: Seq<u8>, w: int, h: int, x: int, y: int, cw: int, ch: int)
    requires
        0 <= w,
        0 <= h,
        data.len() == 4 * w * h,
        0 <= x,
        0 <= y,
        0 <= cw,
        0 <= ch,
        x + cw <= w,
        y + ch <= h,
    ensures
        spec_paste(data, w, h, spec_crop(data, w, x, y, cw, ch), cw, ch, x, y) == data,
{
    let crop = spec_crop(data, w, x, y, cw, ch);
    let f = |i: int, j: int| pixel(data, w, x + i, y + j);
    let g = |a: int, b: int|
        if x <= a < x + cw && y <= b < y + ch {
            pixel(crop, cw, a - x, b - y)
        } else {
            pixel(data, w, a, b)
        };
    assert forall|a: int, b: int| 0 <= a < w && 0 <= b < h implies #[trigger] pixel(data, w, a, b) == g(
        a,
        b,
    ) by {
        if x <= a < x + cw && y <= b < y + ch {
            lemma_bytes_from_pixel(cw, ch, f, a - x, b - y);
        }
    }
    lemma_bytes_from_ext(w, h, data, g);
}

/// Law: pasting only changes the pixels the pasted image covers.
pub proof fn lemma_paste_outside_unchanged(
    bottom: Seq<u8>,
    bw: int,
    bh: int,
    top: Seq<u8>,
    tw: int,
    th: int,
    ox: int,
    oy: int,
    x: int,
    y: int,
)
    requires
        0 <= x < bw,
        0 <= y < bh,
        !(ox <= x < ox + tw && oy <= y < oy + th),
    ensures
        pixel(spec_paste(bottom, bw, bh, top, tw, th, ox, oy), bw, x, y) == pixel(bottom, bw, x, y),
{
    let g = |a: int, b: int|
        if ox <= a < ox + tw && oy <= b < oy + th {
            pixel(top, tw, a - ox, b - oy)
        } else {
            pixel(bottom, bw, a, b)
        };
    lemma_bytes_from_pixel(bw, bh, g, x, y);
}

} // verus!
