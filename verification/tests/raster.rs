use rustshot::canvas::render::{bake_blurs, pixelate_crop, preview_blur};
use rustshot::canvas::{Annotation, Bounds, Color, Pos, Scalar};
use rustshot::raster::RgbaImage;
use rustshot::ui::overlay::paint::{clamp_to_image, crop_to_selection, dim, overlay_rect_from_base};
use rustshot::ui::overlay::x11_win::swap_rgba_to_bgra;

fn c(v: u8) -> Color {
    Color { r: v, g: v, b: v, a: 255 }
}

/// A `w` x `h` image whose pixel (x, y) has gray level 10 * y + x.
fn ramp(w: u32, h: u32) -> RgbaImage {
    let mut img = RgbaImage::new(w, h);
    for y in 0..h {
        for x in 0..w {
            img.put(x, y, c((10 * y + x) as u8));
        }
    }
    img
}

#[test]
fn new_is_transparent_black() {
    let img = RgbaImage::new(3, 2);
    assert_eq!(img.data.len(), 24);
    assert!(img.data.iter().all(|&b| b == 0));
}

#[test]
fn put_get() {
    let mut img = RgbaImage::new(4, 4);
    img.put(2, 3, Color { r: 1, g: 2, b: 3, a: 4 });
    assert_eq!(img.get(2, 3), Color { r: 1, g: 2, b: 3, a: 4 });
    assert_eq!(&img.data[(4 * (3 * 4 + 2))..(4 * (3 * 4 + 2) + 4)], &[1, 2, 3, 4]);
    assert_eq!(img.get(3, 2), Color { r: 0, g: 0, b: 0, a: 0 });
}

#[test]
fn crop_takes_block() {
    let img = ramp(5, 4);
    let out = img.crop(1, 2, 3, 2);
    assert_eq!((out.width, out.height), (3, 2));
    assert_eq!(out.get(0, 0), c(21));
    assert_eq!(out.get(2, 1), c(33));
}

#[test]
fn paste_clips_and_puts_back() {
    let img = ramp(5, 4);
    let mut bottom = img.clone();
    let patch = img.crop(1, 1, 2, 2);
    bottom.paste(&RgbaImage::new(2, 2), 1, 1);
    assert_eq!(bottom.get(1, 1), Color { r: 0, g: 0, b: 0, a: 0 });
    bottom.paste(&patch, 1, 1);
    assert_eq!(bottom.data, img.data);
    let mut b2 = img.clone();
    b2.paste(&RgbaImage::new(3, 3), -2, 3);
    assert_eq!(b2.get(0, 3), Color { r: 0, g: 0, b: 0, a: 0 });
    assert_eq!(b2.get(1, 3), c(31));
    assert_eq!(b2.get(0, 2), c(20));
}

#[test]
fn dim_darkens_keeps_alpha() {
    let mut img = RgbaImage::new(2, 1);
    img.put(0, 0, Color { r: 255, g: 100, b: 0, a: 7 });
    let d = dim(&img);
    assert_eq!(d.get(0, 0), Color { r: 127, g: 49, b: 0, a: 7 });
}

#[test]
fn clamp_to_image_clips() {
    let s = Bounds { x: -10, y: 5, w: 30, h: 100 };
    assert_eq!(clamp_to_image(s, 15, 50), (0, 5, 15, 45));
    let off = Bounds { x: 100, y: 100, w: 5, h: 5 };
    assert_eq!(clamp_to_image(off, 15, 50), (15, 50, 0, 0));
}

#[test]
fn crop_to_selection_cases() {
    let img = ramp(5, 4);
    let out = crop_to_selection(img.clone(), Some(Bounds { x: 2, y: 1, w: 2, h: 2 }));
    assert_eq!((out.width, out.height), (2, 2));
    assert_eq!(out.get(0, 0), c(12));
    let whole = crop_to_selection(img.clone(), None);
    assert_eq!(whole.data, img.data);
    let off = crop_to_selection(img.clone(), Some(Bounds { x: 50, y: 50, w: 2, h: 2 }));
    assert_eq!((off.width, off.height), (5, 4));
}

#[test]
fn undim_copies_selection_only() {
    let base = ramp(5, 4);
    let mut display = RgbaImage::new(5, 4);
    overlay_rect_from_base(&mut display, &base, Bounds { x: 3, y: 2, w: 10, h: 10 });
    assert_eq!(display.get(3, 2), c(23));
    assert_eq!(display.get(4, 3), c(34));
    assert_eq!(display.get(2, 2), Color { r: 0, g: 0, b: 0, a: 0 });
}

#[test]
fn pixelate_checker_becomes_blocks() {
    // 4x4 fine checkerboard of black and white.
    let mut img = RgbaImage::new(4, 4);
    for y in 0..4 {
        for x in 0..4 {
            img.put(x, y, c(if (x + y) % 2 == 0 { 0 } else { 255 }));
        }
    }
    let (x, y, out) = pixelate_crop(&img, Bounds { x: 0, y: 0, w: 4, h: 4 }, 2).unwrap();
    assert_eq!((x, y, out.width, out.height), (0, 0, 4, 4));
    assert_ne!(out.data, img.data);
    // Cells of 2x2 are uniform after nearest-neighbour upscaling.
    assert_eq!(out.get(0, 0), out.get(1, 1));
    assert_eq!(out.get(0, 0), out.get(1, 0));
    assert_eq!(out.get(2, 2), out.get(3, 3));
}

#[test]
fn pixelate_off_image_is_none() {
    let img = ramp(5, 4);
    assert!(pixelate_crop(&img, Bounds { x: 10, y: 0, w: 4, h: 4 }, 2).is_none());
    assert!(pixelate_crop(&img, Bounds { x: 0, y: 0, w: 0, h: 4 }, 2).is_none());
    let (x, y, out) = pixelate_crop(&img, Bounds { x: -3, y: 2, w: 4, h: 9 }, 1).unwrap();
    assert_eq!((x, y, out.width, out.height), (0, 2, 4, 2));
}

#[test]
fn bake_blurs_touches_only_blur_rect() {
    let img = ramp(8, 8);
    let mut base = img.clone();
    let anns = vec![
        Annotation::Rect { rect: Bounds { x: 0, y: 0, w: 8, h: 8 }, color: c(1), width: Scalar { bits: 0 } },
        Annotation::Blur { rect: Bounds { x: 2, y: 2, w: 4, h: 4 }, block: 2 },
    ];
    bake_blurs(&mut base, &anns);
    for y in 0..8 {
        for x in 0..8 {
            if !(2..6).contains(&x) || !(2..6).contains(&y) {
                assert_eq!(base.get(x, y), img.get(x, y));
            }
        }
    }
    assert_eq!(base.get(2, 2), base.get(3, 3));
}

#[test]
fn blur_preview_matches_crop() {
    let img = ramp(8, 8);
    let a = preview_blur(&img, Pos { x: 6, y: 6 }, Pos { x: 2, y: 2 }, 2).unwrap();
    let b = pixelate_crop(&img, Bounds { x: 2, y: 2, w: 4, h: 4 }, 2).unwrap();
    assert_eq!((a.0, a.1, a.2.data), (b.0, b.1, b.2.data));
}

#[test]
fn swap_to_bgra() {
    let src = [1u8, 2, 3, 4, 5, 6, 7, 8, 9];
    let mut dst = vec![0u8; 9];
    dst[8] = 42;
    swap_rgba_to_bgra(&src, &mut dst);
    assert_eq!(dst, vec![3, 2, 1, 255, 7, 6, 5, 255, 42]);
}
