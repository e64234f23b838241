use rustshot::canvas::{Annotation, Bounds, Canvas, Color, Pos, Scalar, Style, ToolKind};

fn red() -> Color {
    Color { r: 255, g: 50, b: 50, a: 255 }
}

fn rect_ann(x: i32) -> Annotation {
    Annotation::Rect { rect: Bounds { x, y: 0, w: 5, h: 5 }, color: red(), width: Scalar { bits: 4.0f32.to_bits() } }
}

fn marker(n: u32) -> Annotation {
    Annotation::Counter { center: Pos { x: 1, y: 1 }, number: n, color: red(), radius: Scalar { bits: 16.0f32.to_bits() } }
}

fn xs(v: &[Annotation]) -> Vec<i32> {
    v.iter()
        .map(|a| match a {
            Annotation::Rect { rect, .. } => rect.x,
            Annotation::Counter { number, .. } => -(*number as i32),
            _ => i32::MIN,
        })
        .collect()
}

#[test]
fn from_two_orders_corners() {
    let b = Bounds::from_two(Pos { x: 10, y: 2 }, Pos { x: 3, y: 9 });
    assert_eq!(b, Bounds { x: 3, y: 2, w: 7, h: 7 });
    let c = Bounds::from_two(Pos { x: 3, y: 9 }, Pos { x: 10, y: 2 });
    assert_eq!(b, c);
}

#[test]
fn from_two_extreme_coordinates() {
    let b = Bounds::from_two(Pos { x: i32::MIN, y: 0 }, Pos { x: i32::MAX, y: 0 });
    assert_eq!(b.x, i32::MIN);
    assert_eq!(b.w, u32::MAX);
    assert_eq!(b.h, 0);
}

#[test]
fn style_default_is_red_four_pixels() {
    let s = Style::default();
    assert_eq!(s.color, red());
    assert_eq!(f32::from_bits(s.width.bits), 4.0);
}

#[test]
fn tool_index_roundtrip() {
    for i in 0..6 {
        let t = ToolKind::from_index(i).unwrap();
        assert_eq!(t.index(), i);
    }
    assert_eq!(ToolKind::from_index(0), Some(ToolKind::Pencil));
    assert_eq!(ToolKind::from_index(5), Some(ToolKind::Counter));
    assert_eq!(ToolKind::from_index(6), None);
}

#[test]
fn push_clears_redo() {
    let mut c = Canvas::default();
    c.push(rect_ann(1));
    c.push(rect_ann(2));
    c.undo();
    assert_eq!(xs(&c.redo), vec![2]);
    c.push(rect_ann(3));
    assert_eq!(xs(&c.annotations), vec![1, 3]);
    assert!(c.redo.is_empty());
}

#[test]
fn undo_then_redo_restores() {
    let mut c = Canvas::default();
    c.push(rect_ann(1));
    c.push(rect_ann(2));
    c.undo();
    assert_eq!(xs(&c.annotations), vec![1]);
    c.redo();
    assert_eq!(xs(&c.annotations), vec![1, 2]);
    assert!(c.redo.is_empty());
}

#[test]
fn undo_on_empty_does_nothing() {
    let mut c = Canvas::default();
    c.undo();
    c.redo();
    assert!(c.annotations.is_empty());
    assert!(c.redo.is_empty());
    assert_eq!(c.counter, 0);
}

#[test]
fn undo_redo_keep_timeline() {
    let mut c = Canvas::default();
    for i in 1..=4 {
        c.push(rect_ann(i));
    }
    c.undo();
    c.undo();
    c.redo();
    let mut timeline = xs(&c.annotations);
    let mut undone = xs(&c.redo);
    undone.reverse();
    timeline.extend(undone);
    assert_eq!(timeline, vec![1, 2, 3, 4]);
}

#[test]
fn marker_numbers_follow_undo() {
    let mut c = Canvas::default();
    let n1 = c.next_counter();
    c.push(marker(n1));
    let n2 = c.next_counter();
    c.push(marker(n2));
    assert_eq!((n1, n2), (1, 2));
    c.undo();
    assert_eq!(c.counter, 1);
    assert_eq!(c.next_counter(), 2);
}

#[test]
fn redo_marker_takes_number_again() {
    let mut c = Canvas::default();
    let n = c.next_counter();
    c.push(marker(n));
    c.undo();
    assert_eq!(c.counter, 0);
    c.redo();
    assert_eq!(c.counter, 1);
    assert_eq!(xs(&c.annotations), vec![-1]);
}

#[test]
fn undo_marker_at_zero_saturates() {
    let mut c = Canvas::default();
    c.push(marker(7));
    c.undo();
    assert_eq!(c.counter, 0);
    c.redo();
    assert_eq!(c.counter, 1);
}
