use rustshot::canvas::Color;
use rustshot::capture::{
    bgrx_to_rgba, composite_cursor, screen_at, screens_from_outputs, Crtc, CursorImage, Screen,
};
use rustshot::error::Error;
use rustshot::raster::RgbaImage;
use rustshot::ui::overlay::x11_win::swap_rgba_to_bgra;

#[test]
fn screens_skip_disabled_outputs() {
    let outs = vec![
        Some(Crtc { x: 0, y: 0, width: 1920, height: 1080 }),
        None,
        Some(Crtc { x: 1920, y: 0, width: 0, height: 1080 }),
        Some(Crtc { x: 1920, y: -200, width: 1280, height: 1024 }),
    ];
    assert_eq!(
        screens_from_outputs(&outs),
        vec![
            Screen { x: 0, y: 0, width: 1920, height: 1080 },
            Screen { x: 1920, y: -200, width: 1280, height: 1024 },
        ]
    );
}

#[test]
fn screen_at_first_match() {
    let s = vec![
        Screen { x: 0, y: 0, width: 100, height: 100 },
        Screen { x: 50, y: 0, width: 100, height: 100 },
    ];
    assert_eq!(screen_at(&s, 60, 10), Ok(s[0]));
    assert_eq!(screen_at(&s, 100, 10), Ok(s[1]));
    assert_eq!(screen_at(&s, 150, 10), Err(Error::CursorOffScreen { x: 150, y: 10 }));
    assert_eq!(screen_at(&s, -1, 10), Err(Error::CursorOffScreen { x: -1, y: 10 }));
    assert!(s[0].contains(0, 0));
    assert!(!s[0].contains(100, 0));
}

#[test]
fn bgrx_to_rgba_converts() {
    let data = [10u8, 20, 30, 0, 40, 50, 60, 0, 99];
    let img = bgrx_to_rgba(&data, 2, 1).unwrap();
    assert_eq!(img.data, vec![30, 20, 10, 255, 60, 50, 40, 255]);
    assert_eq!((img.width, img.height), (2, 1));
}

#[test]
fn bgrx_to_rgba_short_data() {
    let data = [0u8; 7];
    assert!(matches!(
        bgrx_to_rgba(&data, 2, 1),
        Err(Error::ShortImage { got: 7, expected: 8 })
    ));
}

#[test]
fn bgrx_to_rgba_overflow() {
    if usize::BITS == 32 {
        assert!(matches!(bgrx_to_rgba(&[], 0x1_0000, 0x1_0000), Err(Error::DimensionsOverflow)));
    }
}

#[test]
fn capture_display_roundtrip() {
    let data = vec![1u8, 2, 3, 255, 4, 5, 6, 255];
    let img = bgrx_to_rgba(&data, 2, 1).unwrap();
    let mut out = vec![0u8; 8];
    swap_rgba_to_bgra(&img.data, &mut out);
    assert_eq!(out, data);
}

#[test]
fn cursor_composite_blends() {
    let mut img = RgbaImage::new(3, 3);
    for y in 0..3 {
        for x in 0..3 {
            img.put(x, y, Color { r: 100, g: 100, b: 100, a: 200 });
        }
    }
    let cursor = CursorImage {
        x: 12,
        y: 11,
        width: 2,
        height: 2,
        xhot: 1,
        yhot: 0,
        // opaque red, transparent, half-covered (premultiplied 0x80 green), off-image
        pixels: vec![0xffff0000, 0x00000000, 0x80008000, 0xff0000ff],
    };
    // Screen origin (10, 10): cursor image lands at (1, 1).
    composite_cursor(&mut img, &cursor, 10, 10);
    assert_eq!(img.get(1, 1), Color { r: 255, g: 0, b: 0, a: 200 });
    assert_eq!(img.get(2, 1), Color { r: 100, g: 100, b: 100, a: 200 });
    let half = 100 * (255 - 0x80) / 255;
    assert_eq!(img.get(1, 2), Color { r: half as u8, g: (0x80 + half) as u8, b: half as u8, a: 200 });
    assert_eq!(img.get(2, 2), Color { r: 0, g: 0, b: 255, a: 200 });
    assert_eq!(img.get(0, 0), Color { r: 100, g: 100, b: 100, a: 200 });
}

#[test]
fn cursor_partly_off_image() {
    let mut img = RgbaImage::new(1, 1);
    let cursor = CursorImage { x: 0, y: 0, width: 2, height: 1, xhot: 1, yhot: 0, pixels: vec![0xff112233, 0xff445566] };
    composite_cursor(&mut img, &cursor, 0, 0);
    assert_eq!(img.get(0, 0), Color { r: 0x44, g: 0x55, b: 0x66, a: 0 });
}

#[test]
fn cursor_with_short_pixel_list() {
    let mut img = RgbaImage::new(2, 1);
    let cursor = CursorImage { x: 0, y: 0, width: 2, height: 1, xhot: 0, yhot: 0, pixels: vec![0xff010203] };
    composite_cursor(&mut img, &cursor, 0, 0);
    assert_eq!(img.get(0, 0), Color { r: 1, g: 2, b: 3, a: 0 });
    assert_eq!(img.get(1, 0), Color { r: 0, g: 0, b: 0, a: 0 });
}
