//! The pixel work behind the Blur tool: pixelating a region by a
//! downscale then upscale, and baking committed blurs into the base image.
//! (Vector annotations and marker text are rasterized by the caller.)

use crate::canvas::{Annotation, Bounds};
use crate::raster::{RgbaImage, spec_crop, spec_paste, lemma_sub_area};
use vstd::prelude::*;

verus! {

/// Resampling filter.
#[derive(Debug, Clone, Copy, PartialEq, Eq, Structural)]
pub enum Filter {
    /// Nearest neighbour: hard block edges.
    Nearest,
    /// Linear (tent) filter: area-averaged blocks when shrinking.
    Triangle,
}

/// The bytes `image::imageops::resize` produces when it resamples the
/// `width` x `height` RGBA8 image `data` to `new_width` x `new_height`.
pub uninterp spec fn resized(
    width: u32,
    height: u32,
    data: Seq<u8>,
    new_width: u32,
    new_height: u32,
    filter: Filter,
) -> Seq<u8>;

/// Calls `image::imageops::resize` on `img`. Trusted: the result is the
/// named resampling of the input, it is `new_width` x `new_height` pixels,
/// and resizing to the same size returns a copy (the crate's source makes
/// that copy explicitly). Which colors the filter produces is not stated.
#[verifier::external_body]
fn resize(img: &RgbaImage, new_width: u32, new_height: u32, filter: Filter) -> (out: RgbaImage)
    requires
        img.wf(),
        4 * new_width * new_height <= usize::MAX,
    ensures
        out.width == new_width,
        out.height == new_height,
        out.wf(),
        out.data@ == resized(img.width, img.height, img.data@, new_width, new_height, filter),
        new_width == img.width && new_height == img.height ==> out.data@ == img.data@,
{
    let buf = image::RgbaImage::from_raw(img.width, img.height, img.data.clone()).unwrap();
    let kind = match filter {
        Filter::Nearest => image::imageops::FilterType::Nearest,
        Filter::Triangle => image::imageops::FilterType::Triangle,
    };
    let out = image::imageops::resize(&buf, new_width, new_height, kind);
    RgbaImage { width: out.width(), height: out.height(), data: out.into_raw() }
}

/// The part of `b` that lies on a `width` x `height` image: origin clamped
/// to zero, extent clipped at the right and bottom edges.
pub open spec fn clip_region(width: int, height: int, b: Bounds) -> (int, int, int, int) {
    let x = if b.x > 0 { b.x as int } else { 0 };
    let y = if b.y > 0 { b.y as int } else { 0 };
    let room_w = if width > x { width - x } else { 0 };
    let room_h = if height > y { height - y } else { 0 };
    let w = if (b.w as int) < room_w { b.w as int } else { room_w };
    let h = if (b.h as int) < room_h { b.h as int } else { room_h };
    (x, y, w, h)
}

/// Pixelation of region `b` of `data` with `block`-pixel cells (at least
/// 2): the clipped region is shrunk by the cell size with the tent filter
/// and blown back up with nearest-neighbour. `None` when nothing of `b` is on
/// the image. Gives the clipped origin, size and the pixelated bytes.
pub open spec fn spec_pixelate(data: Seq<u8>, width: u32, height: u32, b: Bounds, block: u32) -> Option<
    (u32, u32, u32, u32, Seq<u8>),
> {
    let (x, y, w, h) = clip_region(width as int, height as int, b);
    if w == 0 || h == 0 {
        None
    } else {
        let cell = if block > 2 { block as int } else { 2 };
        let sw = if w / cell > 1 { w / cell } else { 1 };
        let sh = if h / cell > 1 { h / cell } else { 1 };
        let cropped = spec_crop(data, width as int, x, y, w, h);
        let down = resized(w as u32, h as u32, cropped, sw as u32, sh as u32, Filter::Triangle);
        let up = resized(sw as u32, sh as u32, down, w as u32, h as u32, Filter::Nearest);
        Some((x as u32, y as u32, w as u32, h as u32, up))
    }
}

/// Law: with a block of at least 2 pixels, a region with something on the
/// image is pixelated in place: the clipped region is shrunk to
/// one pixel per `block` x `block` cell (at least one pixel each way) with
/// the tent filter and blown back up to its size with nearest-neighbour; so
/// a larger block gives a coarser intermediate image. A block below 2
/// pixelates as a block of 2.
pub proof fn lemma_pixelate_cell_is_block(data: Seq<u8>, width: u32, height: u32, b: Bounds, block: u32)
    ensures
        block < 2 ==> spec_pixelate(data, width, height, b, block) == spec_pixelate(
            data,
            width,
            height,
            b,
            2,
        ),
        ({
            let (x, y, w, h) = clip_region(width as int, height as int, b);
            let sw = if w / (block as int) >= 1 { w / (block as int) } else { 1 };
            let sh = if h / (block as int) >= 1 { h / (block as int) } else { 1 };
            let crop = spec_crop(data, width as int, x, y, w, h);
            block >= 2 && w > 0 && h > 0 ==> spec_pixelate(data, width, height, b, block) == Some(
                (
                    x as u32,
                    y as u32,
                    w as u32,
                    h as u32,
                    resized(
                        sw as u32,
                        sh as u32,
                        resized(w as u32, h as u32, crop, sw as u32, sh as u32, Filter::Triangle),
                        w as u32,
                        h as u32,
                        Filter::Nearest,
                    ),
                ),
            )
        }),
{
}

/// Crop and pixelate a region. Returns the clamped origin and the
/// pixelated image, so callers can paste it back into the base (committed)
/// or show it as a live preview (draft).
pub fn pixelate_crop(img: &RgbaImage, b: Bounds, block: u32) -> (r: Option<(u32, u32, RgbaImage)>)
    requires
        img.wf(),
    ensures
        match spec_pixelate(img.data@, img.width, img.height, b, block) {
            Some((x, y, w, h, bytes)) => r matches Some((rx, ry, out)) && rx == x && ry == y
                && out.width == w && out.height == h && out.wf() && out.data@ == bytes,
            None => r is None,
        },
{
    let img_w = img.width;
    let img_h = img.height;
    let x: u32 = if b.x > 0 { b.x as u32 } else { 0 };
    let y: u32 = if b.y > 0 { b.y as u32 } else { 0 };
    let room_w = img_w.saturating_sub(x);
    let room_h = img_h.saturating_sub(y);
    let w: u32 = if b.w < room_w { b.w } else { room_w };
    let h: u32 = if b.h < room_h { b.h } else { room_h };
    if w == 0 || h == 0 {
        return None;
    }
    let cell: u32 = if block > 2 { block } else { 2 };
    let sw: u32 = if w / cell > 1 { w / cell } else { 1 };
    let sh: u32 = if h / cell > 1 { h / cell } else { 1 };
    let len = img.data.len();
    proof {
        lemma_sub_area(w as int, h as int, img_w as int, img_h as int);
        lemma_sub_area(sw as int, sh as int, w as int, h as int);
    }
    let cropped = img.crop(x, y, w, h);
    let down = resize(&cropped, sw, sh, Filter::Triangle);
    let up = resize(&down, w, h, Filter::Nearest);
    Some((x, y, up))
}

/// `data` with the committed blurs among `anns` baked in, oldest first:
/// each blur pixelates the image as earlier blurs left it.
pub open spec fn baked(data: Seq<u8>, width: u32, height: u32, anns: Seq<Annotation>) -> Seq<u8>
    decreases anns.len(),
{
    if anns.len() == 0 {
        data
    } else {
        let prev = baked(data, width, height, anns.drop_last());
        match anns.last() {
            Annotation::Blur { rect, block } => match spec_pixelate(prev, width, height, rect, block) {
                Some((x, y, w, h, px)) => spec_paste(
                    prev,
                    width as int,
                    height as int,
                    px,
                    w as int,
                    h as int,
                    x as int,
                    y as int,
                ),
                None => prev,
            },
            _ => prev,
        }
    }
}

/// Bake every committed blur into `img`, in commit order.
pub fn bake_blurs(img: &mut RgbaImage, anns: &Vec<Annotation>)
    requires
        old(img).wf(),
    ensures
        final(img).wf(),
        final(img).width == old(img).width,
        final(img).height == old(img).height,
        final(img).data@ == baked(old(img).data@, old(img).width, old(img).height, anns@),
{
    let ghost start = img.data@;
    let n = anns.len();
    let mut i: usize = 0;
    while i < n
        invariant
            n == anns@.len(),
            i <= n,
            img.wf(),
            img.width == old(img).width,
            img.height == old(img).height,
            start == old(img).data@,
            img.data@ == baked(start, img.width, img.height, anns@.take(i as int)),
        decreases n - i,
    {
        proof {
            assert(anns@.take(i + 1).drop_last() =~= anns@.take(i as int));
            assert(anns@.take(i + 1).last() == anns@[i as int]);
        }
        if let Annotation::Blur { rect, block } = &anns[i] {
            if let Some((x, y, px)) = pixelate_crop(img, *rect, *block) {
                img.paste(&px, x as i64, y as i64);
            }
        }
        i = i + 1;
    }
    proof {
        assert(anns@.take(n as int) =~= anns@);
    }
}

/// Live preview of a blur being dragged from `start` to `end`: the
/// pixelated patch and where it goes.
pub fn preview_blur(base: &RgbaImage, start: crate::canvas::Pos, end: crate::canvas::Pos, block: u32) -> (r: Option<(u32, u32, RgbaImage)>)
    requires
        base.wf(),
    ensures
        match spec_pixelate(base.data@, base.width, base.height, Bounds::spanned(start, end), block) {
            Some((x, y, w, h, bytes)) => r matches Some((rx, ry, out)) && rx == x && ry == y
                && out.width == w && out.height == h && out.wf() && out.data@ == bytes,
            None => r is None,
        },
{
    pixelate_crop(base, Bounds::from_two(start, end), block)
}

/// Law: a blur only changes pixels inside its rectangle, when the rectangle
/// starts on the image (a rectangle starting left of or above the image is
/// clipped at the origin without shrinking, so it reaches further right or
/// down).
pub proof fn lemma_blur_stays_inside(
    data: Seq<u8>,
    width: u32,
    height: u32,
    rect: Bounds,
    block: u32,
    x: int,
    y: int,
)
    requires
        0 <= x < width,
        0 <= y < height,
        rect.x >= 0,
        rect.y >= 0,
        !(rect.left() <= x < rect.right() && rect.top() <= y < rect.bottom()),
    ensures
        crate::raster::pixel(
            baked(data, width, height, seq![Annotation::Blur { rect, block }]),
            width as int,
            x,
            y,
        ) == crate::raster::pixel(data, width as int, x, y),
{
    let anns = seq![Annotation::Blur { rect, block }];
    assert(anns.drop_last() =~= Seq::<Annotation>::empty());
    assert(baked(data, width, height, anns.drop_last()) == data);
    match spec_pixelate(data, width, height, rect, block) {
        Some((px, py, w, h, bytes)) => {
            crate::raster::lemma_paste_outside_unchanged(
                data,
                width as int,
                height as int,
                bytes,
                w as int,
                h as int,
                px as int,
                py as int,
                x,
                y,
            );
        },
        None => {},
    }
}

} // verus!
