use rustshot::error::Error;
use rustshot::ui::overlay::x11_win::check_frame;
use rustshot::canvas::{Annotation, Bounds, Color, Pos, Scalar, Style, ToolKind};
use rustshot::ui::overlay::draft::{drawable, Draft};
use rustshot::ui::overlay::selection::{
    cursor_glyph_for_handle, handle_at, handle_corner_positions, resize_rect, Handle, SelectionEdit,
};
use rustshot::ui::overlay::state::{Mode, OverlayState};
use rustshot::ui::overlay::tool_buttons::{contains, hit, strip_rect, Hit, Strip};
use rustshot::ui::overlay::x11_win::{
    ctrl_held, Keymap, CONTROL_MASK, KS_1, KS_6, KS_C_LOWER, KS_ESCAPE, KS_KP_ENTER, KS_RETURN,
    KS_Y_LOWER, KS_Z_LOWER, XC_CROSSHAIR, XC_FLEUR, XC_HAND1, XC_LEFT_PTR,
};
use rustshot::ui::overlay::{
    apply_hit, bounds_contains, clamp_to_bounds, handle_key, on_motion, on_press, on_release,
    pick_cursor, Dragging, Finish,
};
use rustshot::ui::overlay::events::{can_step, step, InputEvent, Interaction, Reply};
use rustshot::ui::overlay::press_kind;
use rustshot::ui::overlay::Press;
use rustshot::ui::toolbar::{apply, cycle_color, pick_color, Action};
use rustshot::ui::UiResult;

fn p(x: i32, y: i32) -> Pos {
    Pos { x, y }
}

fn fresh() -> OverlayState {
    OverlayState::new(1000, 800, Style::default(), None, Scalar { bits: 16.0f32.to_bits() }, 10)
}

fn annotating(sel: Bounds, tool: Option<ToolKind>) -> OverlayState {
    let mut s = fresh();
    s.mode = Mode::Annotating;
    s.selection = Some(sel);
    s.canvas.tool = tool;
    s
}

fn sel() -> Bounds {
    Bounds { x: 100, y: 100, w: 200, h: 100 }
}

#[test]
fn handle_at_corners_first() {
    let r = sel();
    assert_eq!(handle_at(r, p(100, 100)), Some(Handle::NW));
    assert_eq!(handle_at(r, p(305, 95)), Some(Handle::NE));
    assert_eq!(handle_at(r, p(100, 200)), Some(Handle::SW));
    assert_eq!(handle_at(r, p(300, 214)), Some(Handle::SE));
    assert_eq!(handle_at(r, p(200, 104)), Some(Handle::N));
    assert_eq!(handle_at(r, p(200, 208)), Some(Handle::S));
    assert_eq!(handle_at(r, p(92, 150)), Some(Handle::W));
    assert_eq!(handle_at(r, p(301, 150)), Some(Handle::E));
    assert_eq!(handle_at(r, p(200, 150)), None);
    assert_eq!(handle_at(r, p(200, 109)), None);
}

#[test]
fn resize_rect_flips() {
    let r = sel();
    assert_eq!(resize_rect(r, Handle::SE, 10, 20), Bounds { x: 100, y: 100, w: 210, h: 120 });
    assert_eq!(resize_rect(r, Handle::E, -250, 0), Bounds { x: 50, y: 100, w: 50, h: 100 });
    assert_eq!(resize_rect(r, Handle::NW, 0, 0), r);
    assert_eq!(resize_rect(r, Handle::N, 5, -10), Bounds { x: 100, y: 90, w: 200, h: 110 });
}

#[test]
fn handle_positions_half_pixels() {
    let v = handle_corner_positions(Bounds { x: 0, y: 0, w: 3, h: 4 });
    assert_eq!(v[0], (Handle::NW, 0, 0));
    assert_eq!(v[1], (Handle::N, 3, 0));
    assert_eq!(v[3], (Handle::E, 6, 4));
    assert_eq!(v[4], (Handle::SE, 6, 8));
}

#[test]
fn cursor_glyphs() {
    assert_eq!(cursor_glyph_for_handle(Handle::N), 138);
    assert_eq!(cursor_glyph_for_handle(Handle::S), 16);
    assert_eq!(cursor_glyph_for_handle(Handle::E), 96);
    assert_eq!(cursor_glyph_for_handle(Handle::W), 70);
    assert_eq!(cursor_glyph_for_handle(Handle::NE), 136);
    assert_eq!(cursor_glyph_for_handle(Handle::NW), 134);
    assert_eq!(cursor_glyph_for_handle(Handle::SE), 14);
    assert_eq!(cursor_glyph_for_handle(Handle::SW), 12);
}

#[test]
fn bounds_contains_and_clamp() {
    let r = sel();
    assert!(bounds_contains(r, p(100, 200)));
    assert!(bounds_contains(r, p(300, 100)));
    assert!(!bounds_contains(r, p(301, 100)));
    assert_eq!(clamp_to_bounds(p(0, 500), r), p(100, 200));
    assert_eq!(clamp_to_bounds(p(150, 150), r), p(150, 150));
}

#[test]
fn click_draft_commits_nothing() {
    let s = Style::default();
    for t in [ToolKind::Pencil, ToolKind::Arrow, ToolKind::Rect, ToolKind::Ellipse, ToolKind::Blur] {
        let d = Draft::new(t, p(5, 5), s, 10).unwrap();
        assert!(d.finalize().is_none());
    }
    assert!(Draft::new(ToolKind::Counter, p(5, 5), s, 10).is_none());
}

#[test]
fn draft_finalize_thresholds() {
    let s = Style::default();
    let mut d = Draft::new(ToolKind::Arrow, p(0, 0), s, 10).unwrap();
    d.extend(p(1, 1));
    assert!(d.clone().finalize().is_none());
    d.extend(p(2, 0));
    match d.finalize() {
        Some(Annotation::Arrow { start, end, .. }) => assert_eq!((start, end), (p(0, 0), p(2, 0))),
        _ => panic!("arrow expected"),
    }
    let mut r = Draft::new(ToolKind::Rect, p(10, 10), s, 10).unwrap();
    r.extend(p(4, 13));
    match r.finalize() {
        Some(Annotation::Rect { rect, .. }) => assert_eq!(rect, Bounds { x: 4, y: 10, w: 6, h: 3 }),
        _ => panic!("rect expected"),
    }
    let mut pen = Draft::new(ToolKind::Pencil, p(1, 1), s, 10).unwrap();
    pen.extend(p(2, 2));
    match pen.finalize() {
        Some(Annotation::Pencil { points, .. }) => assert_eq!(points, vec![p(1, 1), p(2, 2)]),
        _ => panic!("pencil expected"),
    }
    let mut b = Draft::new(ToolKind::Blur, p(0, 0), s, 7).unwrap();
    b.extend(p(1, 9));
    assert!(b.finalize().is_none());
    assert_eq!(drawable(p(0, 0), p(2, 2)), Some(Bounds { x: 0, y: 0, w: 2, h: 2 }));
}

#[test]
fn strip_below_above_pinned() {
    let below = strip_rect(1000, 800, sel());
    assert_eq!(below, Strip { x2: 2 * 100 + 200 - 334, y: 210 });
    let low = Bounds { x: 400, y: 700, w: 100, h: 90 };
    assert_eq!(strip_rect(1000, 800, low).y, 700 - 10 - 46);
    let full = Bounds { x: 0, y: 0, w: 1000, h: 800 };
    let s = strip_rect(1000, 800, full);
    assert_eq!(s.y, 800 - 46 - 4);
    assert_eq!(s.x2, 2 * 0 + 1000 - 334);
    let odd = Bounds { x: 300, y: 0, w: 101, h: 10 };
    assert_eq!(strip_rect(1000, 800, odd).x2, 600 + 101 - 334);
}

#[test]
fn strip_hit_buttons() {
    let s = Strip { x2: 200, y: 300 };
    // strip left edge at x = 100; buttons start 6 px in, 40 px apart.
    assert!(contains(s, p(100, 300)));
    assert!(!contains(s, p(99, 300)));
    assert_eq!(hit(s, p(106, 306)), Some(Hit::Tool(ToolKind::Pencil)));
    assert_eq!(hit(s, p(146 + 34, 340)), Some(Hit::Tool(ToolKind::Arrow)));
    assert_eq!(hit(s, p(143, 320)), None);
    assert_eq!(hit(s, p(100 + 6 + 5 * 40, 320)), Some(Hit::Tool(ToolKind::Counter)));
    assert_eq!(hit(s, p(100 + 260, 320)), Some(Hit::Save));
    assert_eq!(hit(s, p(100 + 300 + 10, 320)), Some(Hit::Copy));
    assert_eq!(hit(s, p(100 + 250, 320)), None);
    assert_eq!(hit(s, p(106, 301)), None);
}

#[test]
fn region_drag_enters_annotating() {
    let mut s = fresh();
    let mut d = on_press(&mut s, p(10, 10));
    assert_eq!(d, Dragging::Region);
    on_motion(&mut s, &mut d, p(60, 40));
    assert_eq!(s.selection, Some(Bounds { x: 10, y: 10, w: 50, h: 30 }));
    assert_eq!(on_release(&mut s, &mut d, p(60, 40), p(10, 10)), None);
    assert_eq!(s.mode, Mode::Annotating);
    assert_eq!(d, Dragging::Idle);
    assert_eq!(s.sel_drag_start, None);
}

#[test]
fn tiny_region_is_discarded() {
    let mut s = fresh();
    let mut d = on_press(&mut s, p(10, 10));
    on_motion(&mut s, &mut d, p(12, 40));
    on_release(&mut s, &mut d, p(12, 40), p(10, 10));
    assert_eq!(s.mode, Mode::SelectingRegion);
    assert_eq!(s.selection, None);
}

#[test]
fn press_inside_without_tool_moves() {
    let mut s = annotating(sel(), None);
    let mut d = on_press(&mut s, p(200, 150));
    assert_eq!(d, Dragging::EditMove);
    assert_eq!(s.selection_edit, SelectionEdit::Moving);
    on_motion(&mut s, &mut d, p(210, 140));
    assert_eq!(s.selection, Some(Bounds { x: 110, y: 90, w: 200, h: 100 }));
    on_release(&mut s, &mut d, p(210, 140), p(200, 150));
    assert_eq!(s.selection_edit, SelectionEdit::Idle);
    assert_eq!(s.edit_rect_start, None);
}

#[test]
fn press_on_handle_resizes() {
    let mut s = annotating(sel(), Some(ToolKind::Rect));
    let mut d = on_press(&mut s, p(300, 200));
    assert_eq!(d, Dragging::EditResize);
    assert_eq!(s.selection_edit, SelectionEdit::Resizing(Handle::SE));
    assert_eq!(pick_cursor(&s, &d, p(0, 0)), 14);
    on_motion(&mut s, &mut d, p(320, 230));
    assert_eq!(s.selection, Some(Bounds { x: 100, y: 100, w: 220, h: 130 }));
}

#[test]
fn ctrl_inside_moves_even_with_tool() {
    let mut s = annotating(sel(), Some(ToolKind::Pencil));
    s.ctrl_down = true;
    assert_eq!(on_press(&mut s, p(200, 150)), Dragging::EditMove);
}

#[test]
fn draw_with_tool() {
    let mut s = annotating(sel(), Some(ToolKind::Rect));
    let mut d = on_press(&mut s, p(150, 120));
    assert_eq!(d, Dragging::Draft);
    on_motion(&mut s, &mut d, p(500, 180));
    on_release(&mut s, &mut d, p(500, 180), p(150, 120));
    assert_eq!(s.draft.is_none(), true);
    assert_eq!(s.canvas.annotations.len(), 1);
    match &s.canvas.annotations[0] {
        Annotation::Rect { rect, .. } => assert_eq!(*rect, Bounds { x: 150, y: 120, w: 150, h: 60 }),
        _ => panic!("rect expected"),
    }
}

#[test]
fn marker_click_places_numbered() {
    let mut s = annotating(sel(), Some(ToolKind::Counter));
    assert_eq!(on_press(&mut s, p(150, 150)), Dragging::Idle);
    assert_eq!(on_press(&mut s, p(160, 150)), Dragging::Idle);
    let numbers: Vec<u32> = s
        .canvas
        .annotations
        .iter()
        .map(|a| match a {
            Annotation::Counter { number, .. } => *number,
            _ => 0,
        })
        .collect();
    assert_eq!(numbers, vec![1, 2]);
    s.canvas.undo();
    assert_eq!(on_press(&mut s, p(170, 150)), Dragging::Idle);
    match s.canvas.annotations.last() {
        Some(Annotation::Counter { number, center, .. }) => assert_eq!((*number, *center), (2, p(170, 150))),
        _ => panic!("marker expected"),
    }
}

#[test]
fn outside_press_does_nothing() {
    let mut s = annotating(sel(), Some(ToolKind::Pencil));
    assert_eq!(on_press(&mut s, p(600, 50)), Dragging::Idle);
    assert!(s.draft.is_none());
    assert_eq!(pick_cursor(&s, &Dragging::Idle, p(600, 50)), XC_LEFT_PTR);
    assert_eq!(pick_cursor(&s, &Dragging::Idle, p(200, 150)), XC_CROSSHAIR);
}

#[test]
fn strip_click_toggles_tool_and_finishes() {
    let mut s = annotating(sel(), None);
    let strip = strip_rect(s.width, s.height, sel());
    let left = (strip.x2 + 1) / 2;
    let pencil = p(left as i32 + 10, strip.y as i32 + 10);
    let mut d = on_press(&mut s, pencil);
    assert_eq!(d, Dragging::Strip(Hit::Tool(ToolKind::Pencil)));
    on_motion(&mut s, &mut d, pencil);
    assert_eq!(s.strip_hover, Some(Hit::Tool(ToolKind::Pencil)));
    assert_eq!(pick_cursor(&s, &d, pencil), XC_HAND1);
    assert_eq!(on_release(&mut s, &mut d, pencil, pencil), None);
    assert_eq!(s.canvas.tool, Some(ToolKind::Pencil));
    let mut d = on_press(&mut s, pencil);
    on_release(&mut s, &mut d, pencil, pencil);
    assert_eq!(s.canvas.tool, None);
    let save = p(left as i32 + 265, strip.y as i32 + 10);
    let mut d = on_press(&mut s, save);
    assert_eq!(on_release(&mut s, &mut d, save, save), Some(Finish::Save));
    let copy = p(left as i32 + 305, strip.y as i32 + 10);
    let mut d = on_press(&mut s, copy);
    assert_eq!(on_release(&mut s, &mut d, p(copy.x + 5, copy.y), copy), None);
}

#[test]
fn apply_hit_actions() {
    let mut s = annotating(sel(), Some(ToolKind::Arrow));
    assert_eq!(apply_hit(&mut s, Hit::Tool(ToolKind::Arrow)), None);
    assert_eq!(s.canvas.tool, None);
    assert_eq!(apply_hit(&mut s, Hit::Tool(ToolKind::Blur)), None);
    assert_eq!(s.canvas.tool, Some(ToolKind::Blur));
    assert_eq!(apply_hit(&mut s, Hit::Save), Some(Finish::Save));
    assert_eq!(apply_hit(&mut s, Hit::Copy), Some(Finish::Copy));
}

#[test]
fn keys() {
    let mut s = annotating(sel(), None);
    assert_eq!(handle_key(&mut s, KS_ESCAPE, 0), Some(Finish::Cancel));
    assert_eq!(handle_key(&mut s, KS_RETURN, 0), Some(Finish::Save));
    assert_eq!(handle_key(&mut s, KS_KP_ENTER, CONTROL_MASK), Some(Finish::Save));
    assert_eq!(handle_key(&mut s, KS_C_LOWER, CONTROL_MASK), Some(Finish::Copy));
    assert_eq!(handle_key(&mut s, KS_C_LOWER, 0), None);
    assert_eq!(handle_key(&mut s, KS_1, 0), None);
    assert_eq!(s.canvas.tool, Some(ToolKind::Pencil));
    assert_eq!(handle_key(&mut s, KS_6, 0), None);
    assert_eq!(s.canvas.tool, Some(ToolKind::Counter));
    assert_eq!(handle_key(&mut s, KS_6 + 1, 0), None);
    assert_eq!(s.canvas.tool, Some(ToolKind::Counter));
    s.canvas.push(Annotation::Blur { rect: sel(), block: 4 });
    handle_key(&mut s, KS_Z_LOWER, CONTROL_MASK);
    assert!(s.canvas.annotations.is_empty());
    handle_key(&mut s, KS_Y_LOWER, CONTROL_MASK);
    assert_eq!(s.canvas.annotations.len(), 1);
    assert!(ctrl_held(CONTROL_MASK | 1));
    assert!(!ctrl_held(1));
}

#[test]
fn ctrl_inside_shows_move_cursor() {
    let mut s = annotating(sel(), Some(ToolKind::Rect));
    s.ctrl_down = true;
    assert_eq!(pick_cursor(&s, &Dragging::Idle, p(200, 150)), XC_FLEUR);
    let f = fresh();
    assert_eq!(pick_cursor(&f, &Dragging::Idle, p(1, 1)), XC_CROSSHAIR);
}

#[test]
fn keymap_lookup() {
    let k = Keymap { syms: vec![0x61, 0x41, 0x62, 0x42], min_keycode: 8, per_keycode: 2 };
    assert_eq!(k.keysym(8), 0x61);
    assert_eq!(k.keysym(9), 0x62);
    assert_eq!(k.keysym(10), 0);
    assert_eq!(k.keysym(7), 0);
}

#[test]
fn toolbar_actions() {
    let mut s = fresh();
    s.canvas.push(Annotation::Rect { rect: sel(), color: Color { r: 1, g: 2, b: 3, a: 4 }, width: Scalar { bits: 0 } });
    assert_eq!(apply(&mut s.canvas, Action::Undo), None);
    assert!(s.canvas.annotations.is_empty());
    assert_eq!(apply(&mut s.canvas, Action::Redo), None);
    assert_eq!(s.canvas.annotations.len(), 1);
    assert_eq!(apply(&mut s.canvas, Action::Cancel), Some(UiResult::Cancelled));
}

#[test]
fn frame_size_check() {
    assert_eq!(check_frame(24, 3, 2), Ok(()));
    assert_eq!(check_frame(20, 3, 2), Err(Error::FrameSize { got: 20, expected: 24 }));
}

#[test]
fn handle_centres_hit_their_own_handles() {
    let rect = Bounds { x: 10, y: 20, w: 40, h: 30 };
    let v = handle_corner_positions(rect);
    assert_eq!(v.len(), 8);
    for (h, x2, y2) in v {
        assert_eq!(x2 % 2, 0);
        assert_eq!(y2 % 2, 0);
        let p = Pos { x: (x2 / 2) as i32, y: (y2 / 2) as i32 };
        assert_eq!(handle_at(rect, p), Some(h));
    }
}

#[test]
fn step_routes_a_region_drag() {
    let mut s = fresh();
    let mut io = Interaction::new();
    let down = InputEvent::ButtonPress { button: 1, p: p(10, 20), mask: 0 };
    assert!(can_step(&s, down));
    assert_eq!(step(&mut s, &mut io, down), Reply::Redraw);
    assert_eq!(io.dragging, Dragging::Region);
    assert_eq!(io.press_pos, p(10, 20));
    assert_eq!(step(&mut s, &mut io, InputEvent::Motion { p: p(110, 90), mask: 0 }), Reply::Redraw);
    assert_eq!(s.selection, Some(Bounds { x: 10, y: 20, w: 100, h: 70 }));
    let up = InputEvent::ButtonRelease { button: 1, p: p(110, 90), mask: 0 };
    assert_eq!(step(&mut s, &mut io, up), Reply::Redraw);
    assert_eq!(s.mode, Mode::Annotating);
    assert_eq!(io.dragging, Dragging::Idle);
}

#[test]
fn step_ignores_other_buttons_and_events() {
    let mut s = fresh();
    let mut io = Interaction::new();
    let right = InputEvent::ButtonPress { button: 3, p: p(10, 20), mask: 0 };
    assert_eq!(step(&mut s, &mut io, right), Reply::Quiet);
    assert_eq!(io.dragging, Dragging::Idle);
    assert_eq!(s.sel_drag_start, None);
    assert_eq!(step(&mut s, &mut io, InputEvent::Other), Reply::Quiet);
    assert_eq!(step(&mut s, &mut io, InputEvent::Expose), Reply::Redraw);
}

#[test]
fn step_keys_finish_or_track_control() {
    let mut s = fresh();
    let mut io = Interaction::new();
    let esc = InputEvent::KeyPress { keysym: KS_ESCAPE, mask: 0 };
    assert_eq!(step(&mut s, &mut io, esc), Reply::Finish(Finish::Cancel));
    let enter = InputEvent::KeyPress { keysym: KS_RETURN, mask: 0 };
    assert_eq!(step(&mut s, &mut io, enter), Reply::Finish(Finish::Save));
    let copy = InputEvent::KeyPress { keysym: KS_C_LOWER, mask: CONTROL_MASK };
    assert_eq!(step(&mut s, &mut io, copy), Reply::Finish(Finish::Copy));
    let one = InputEvent::KeyPress { keysym: KS_1, mask: CONTROL_MASK | 1 };
    assert_eq!(step(&mut s, &mut io, one), Reply::Redraw);
    assert!(s.ctrl_down);
    assert_eq!(step(&mut s, &mut io, InputEvent::KeyRelease { mask: 0 }), Reply::Quiet);
    assert!(!s.ctrl_down);
}

#[test]
fn step_press_places_marker_unless_counter_full() {
    let mut s = annotating(sel(), Some(ToolKind::Counter));
    assert_eq!(press_kind(&s, false, p(150, 150)), Press::PlaceMarker);
    assert_eq!(press_kind(&s, true, p(150, 150)), Press::Move(sel()));
    let mut io = Interaction::new();
    let down = InputEvent::ButtonPress { button: 1, p: p(150, 150), mask: 0 };
    assert_eq!(step(&mut s, &mut io, down), Reply::Redraw);
    assert_eq!(s.canvas.counter, 1);
    assert_eq!(s.canvas.annotations.len(), 1);
    s.canvas.counter = u32::MAX;
    assert!(!can_step(&s, down));
    let ctrl_down = InputEvent::ButtonPress { button: 1, p: p(150, 150), mask: CONTROL_MASK };
    assert!(can_step(&s, ctrl_down));
    let outside = InputEvent::ButtonPress { button: 1, p: p(900, 700), mask: 0 };
    assert!(can_step(&s, outside));
}

#[test]
fn odd_sized_handles_hit_at_the_pixel_before_the_centre() {
    let rect = Bounds { x: -7, y: 3, w: 41, h: 31 };
    for (h, x2, y2) in handle_corner_positions(rect) {
        let q = Pos { x: x2.div_euclid(2) as i32, y: y2.div_euclid(2) as i32 };
        assert_eq!(handle_at(rect, q), Some(h));
    }
    // At a side of 29 the pixel beside the half-pixel centre is a corner's.
    let narrow = Bounds { x: 0, y: 0, w: 29, h: 40 };
    assert_eq!(handle_at(narrow, Pos { x: 14, y: 0 }), Some(Handle::NW));
}

fn rgb(r: u8, g: u8, b: u8) -> Color {
    Color { r, g, b, a: 255 }
}

#[test]
fn palette_pick_and_cycle() {
    let palette = vec![rgb(255, 50, 50), rgb(255, 200, 0), rgb(80, 200, 80)];
    let mut s = fresh();
    let width = s.canvas.style.width;
    pick_color(&mut s.canvas, &palette, 2);
    assert_eq!(s.canvas.style.color, rgb(80, 200, 80));
    pick_color(&mut s.canvas, &palette, 3);
    assert_eq!(s.canvas.style.color, rgb(80, 200, 80));
    cycle_color(&mut s.canvas, &palette, true);
    assert_eq!(s.canvas.style.color, rgb(255, 50, 50));
    cycle_color(&mut s.canvas, &palette, false);
    assert_eq!(s.canvas.style.color, rgb(80, 200, 80));
    cycle_color(&mut s.canvas, &palette, false);
    assert_eq!(s.canvas.style.color, rgb(255, 200, 0));
    s.canvas.style.color = rgb(1, 2, 3);
    cycle_color(&mut s.canvas, &palette, false);
    assert_eq!(s.canvas.style.color, rgb(80, 200, 80));
    s.canvas.style.color = rgb(1, 2, 3);
    cycle_color(&mut s.canvas, &palette, true);
    assert_eq!(s.canvas.style.color, rgb(255, 50, 50));
    cycle_color(&mut s.canvas, &Vec::new(), true);
    assert_eq!(s.canvas.style.color, rgb(255, 50, 50));
    assert_eq!(s.canvas.style.width, width);
}

#[test]
fn step_hands_back_the_wheel() {
    let mut s = fresh();
    let mut io = Interaction::new();
    let up = InputEvent::ButtonPress { button: 4, p: p(1, 1), mask: 0 };
    assert_eq!(step(&mut s, &mut io, up), Reply::Scroll { up: true, ctrl: false });
    let down = InputEvent::ButtonPress { button: 5, p: p(1, 1), mask: CONTROL_MASK };
    assert_eq!(step(&mut s, &mut io, down), Reply::Scroll { up: false, ctrl: true });
    assert_eq!(io.dragging, Dragging::Idle);
}
