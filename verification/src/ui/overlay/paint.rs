//! Pixel steps of the overlay's composite: the dimmed backdrop, the
//! undimmed selection, and the selection cut out for saving.

use crate::canvas::{Bounds, Color};
use crate::raster::{RgbaImage, bytes_from, pixel, spec_crop, lemma_bytes_from_ext, lemma_sub_area};
use vstd::prelude::*;

verus! {

/// A channel seen through a half-opaque black veil (alpha 128 of 255).
pub open spec fn dim_chan(c: u8) -> u8 {
    (c * 127 / 255) as u8
}

pub open spec fn dim_color(c: Color) -> Color {
    Color { r: dim_chan(c.r), g: dim_chan(c.g), b: dim_chan(c.b), a: c.a }
}

/// The whole image darkened, alpha kept.
pub fn dim(img: &RgbaImage) -> (out: RgbaImage)
    requires
        img.wf(),
    ensures
        out.wf(),
        out.width == img.width,
        out.height == img.height,
        out.data@ == bytes_from(
            img.width as int,
            img.height as int,
            |x: int, y: int| dim_color(pixel(img.data@, img.width as int, x, y)),
        ),
{
    let len = img.data.len();
    let mut out = RgbaImage::new(img.width, img.height);
    let mut j: u32 = 0;
    while j < img.height
        invariant
            img.wf(),
            j <= img.height,
            out.wf(),
            out.width == img.width,
            out.height == img.height,
            forall|x: int, y: int|
                out.in_bounds(x, y) && y < j ==> #[trigger] out.at(x, y) == dim_color(img.at(x, y)),
        decreases img.height - j,
    {
        let mut i: u32 = 0;
        while i < img.width
            invariant
                img.wf(),
                j < img.height,
                i <= img.width,
                out.wf(),
                out.width == img.width,
                out.height == img.height,
                forall|x: int, y: int|
                    out.in_bounds(x, y) && (y < j || (y == j && x < i)) ==> #[trigger] out.at(x, y)
                        == dim_color(img.at(x, y)),
            decreases img.width - i,
        {
            let c = img.get(i, j);
            let d = Color {
                r: (c.r as u32 * 127 / 255) as u8,
                g: (c.g as u32 * 127 / 255) as u8,
                b: (c.b as u32 * 127 / 255) as u8,
                a: c.a,
            };
            out.put(i, j, d);
            i = i + 1;
        }
        j = j + 1;
    }
    proof {
        let f = |x: int, y: int| dim_color(pixel(img.data@, img.width as int, x, y));
        assert forall|x: int, y: int| 0 <= x < img.width && 0 <= y < img.height implies #[trigger] pixel(
            out.data@,
            img.width as int,
            x,
            y,
        ) == f(x, y) by {
            assert(out.at(x, y) == dim_color(img.at(x, y)));
        }
        lemma_bytes_from_ext(img.width as int, img.height as int, out.data@, f);
    }
    out
}

pub open spec fn clamp_to(v: int, hi: int) -> int {
    if v < 0 {
        0
    } else if v > hi {
        hi
    } else {
        v
    }
}

/// The selection clipped to a `max_w` x `max_h` image: left, top, width,
/// height.
pub open spec fn spec_clamp_to_image(sel: Bounds, max_w: int, max_h: int) -> (int, int, int, int) {
    let l = clamp_to(sel.left(), max_w);
    let t = clamp_to(sel.top(), max_h);
    let r = clamp_to(sel.right(), max_w);
    let b = clamp_to(sel.bottom(), max_h);
    (l, t, r - l, b - t)
}

pub fn clamp_to_image(sel: Bounds, max_w: u32, max_h: u32) -> (r: (u32, u32, u32, u32))
    ensures
        ({
            let (l, t, w, h) = spec_clamp_to_image(sel, max_w as int, max_h as int);
            r == (l as u32, t as u32, w as u32, h as u32)
        }),
        r.0 + r.2 <= max_w,
        r.1 + r.3 <= max_h,
{
    let l: i64 = clamp_exec(sel.x as i64, max_w as i64);
    let t: i64 = clamp_exec(sel.y as i64, max_h as i64);
    let r: i64 = clamp_exec(sel.x as i64 + sel.w as i64, max_w as i64);
    let b: i64 = clamp_exec(sel.y as i64 + sel.h as i64, max_h as i64);
    (l as u32, t as u32, (r - l) as u32, (b - t) as u32)
}

fn clamp_exec(v: i64, hi: i64) -> (r: i64)
    requires
        0 <= hi,
    ensures
        r == clamp_to(v as int, hi as int),
{
    if v < 0 {
        0
    } else if v > hi {
        hi
    } else {
        v
    }
}

/// What gets saved or copied: the annotated image cut to the selection, or
/// the whole image when there is no selection or it lies off the image.
pub open spec fn spec_selection_image(data: Seq<u8>, width: u32, height: u32, sel: Option<Bounds>) -> (
    u32,
    u32,
    Seq<u8>,
) {
    match sel {
        Some(s) => {
            let (l, t, w, h) = spec_clamp_to_image(s, width as int, height as int);
            if w > 0 && h > 0 {
                (w as u32, h as u32, spec_crop(data, width as int, l, t, w, h))
            } else {
                (width, height, data)
            }
        },
        None => (width, height, data),
    }
}

pub fn crop_to_selection(img: RgbaImage, sel: Option<Bounds>) -> (out: RgbaImage)
    requires
        img.wf(),
    ensures
        out.wf(),
        (out.width, out.height, out.data@) == spec_selection_image(img.data@, img.width, img.height, sel),
{
    if let Some(s) = sel {
        let (l, t, w, h) = clamp_to_image(s, img.width, img.height);
        if w > 0 && h > 0 {
            return img.crop(l, t, w, h);
        }
    }
    img
}

/// `display` with the pixels under the selection (clipped to the image)
/// taken from `base`.
pub open spec fn spec_undim(display: Seq<u8>, base: Seq<u8>, width: u32, height: u32, sel: Bounds) -> Seq<u8> {
    let (l, t, w, h) = spec_clamp_to_image(sel, width as int, height as int);
    bytes_from(
        width as int,
        height as int,
        |x: int, y: int|
            if l <= x < l + w && t <= y < t + h {
                pixel(base, width as int, x, y)
            } else {
                pixel(display, width as int, x, y)
            },
    )
}

/// Copy the selection region of `base` into `display`, clipped to the
/// image, so the selection shows undimmed.
pub fn overlay_rect_from_base(display: &mut RgbaImage, base: &RgbaImage, sel: Bounds)
    requires
        old(display).wf(),
        base.wf(),
        base.width == old(display).width,
        base.height == old(display).height,
    ensures
        final(display).wf(),
        final(display).width == old(display).width,
        final(display).height == old(display).height,
        final(display).data@ == spec_undim(old(display).data@, base.data@, base.width, base.height, sel),
{
    let ghost old_disp = *display;
    let (l, t, w, h) = clamp_to_image(sel, display.width, display.height);
    let mut j: u32 = t;
    while j < t + h
        invariant
            display.wf(),
            base.wf(),
            base.width == display.width,
            base.height == display.height,
            display.width == old_disp.width,
            display.height == old_disp.height,
            l + w <= display.width,
            t + h <= display.height,
            t <= j <= t + h,
            forall|x: int, y: int|
                display.in_bounds(x, y) ==> #[trigger] display.at(x, y) == if l <= x < l + w && t
                    <= y < j {
                    base.at(x, y)
                } else {
                    old_disp.at(x, y)
                },
        decreases t + h - j,
    {
        let mut i: u32 = l;
        while i < l + w
            invariant
                display.wf(),
                base.wf(),
                base.width == display.width,
                base.height == display.height,
                display.width == old_disp.width,
                display.height == old_disp.height,
                l + w <= display.width,
                t + h <= display.height,
                t <= j < t + h,
                l <= i <= l + w,
                forall|x: int, y: int|
                    display.in_bounds(x, y) ==> #[trigger] display.at(x, y) == if l <= x < l + w && t
                        <= y && (y < j || (y == j && x < i)) {
                        base.at(x, y)
                    } else {
                        old_disp.at(x, y)
                    },
            decreases l + w - i,
        {
            let c = base.get(i, j);
            display.put(i, j, c);
            i = i + 1;
        }
        j = j + 1;
    }
    proof {
        let f = |x: int, y: int|
            if l <= x < l + w && t <= y < t + h {
                pixel(base.data@, base.width as int, x, y)
            } else {
                pixel(old_disp.data@, base.width as int, x, y)
            };
        assert forall|x: int, y: int| 0 <= x < display.width && 0 <= y < display.height implies #[trigger] pixel(
            display.data@,
            display.width as int,
            x,
            y,
        ) == f(x, y) by {
            assert(display.at(x, y) == pixel(display.data@, display.width as int, x, y));
        }
        lemma_bytes_from_ext(display.width as int, display.height as int, display.data@, f);
    }
}

/// Law: the saved image is exactly the selected region: its pixel (i, j) is
/// the annotated image's pixel at the selection's clipped corner plus (i, j).
pub proof fn lemma_saved_pixels(data: Seq<u8>, width: u32, height: u32, s: Bounds, i: int, j: int)
    requires
        data.len() == 4 * width * height,
        ({
            let (l, t, w, h) = spec_clamp_to_image(s, width as int, height as int);
            w > 0 && h > 0 && 0 <= i < w && 0 <= j < h
        }),
    ensures
        ({
            let (l, t, w, h) = spec_clamp_to_image(s, width as int, height as int);
            let (ow, oh, out) = spec_selection_image(data, width, height, Some(s));
            ow == w && oh == h && pixel(out, w, i, j) == pixel(data, width as int, l + i, t + j)
        }),
{
    let (l, t, w, h) = spec_clamp_to_image(s, width as int, height as int);
    crate::raster::lemma_bytes_from_pixel(
        w,
        h,
        |a: int, b: int| pixel(data, width as int, l + a, t + b),
        i,
        j,
    );
}

/// Law: dimming keeps every pixel's alpha and never brightens a channel.
pub proof fn lemma_dim_darkens(c: Color)
    ensures
        dim_color(c).a == c.a,
        dim_color(c).r <= c.r,
        dim_color(c).g <= c.g,
        dim_color(c).b <= c.b,
{
}

} // verus!
