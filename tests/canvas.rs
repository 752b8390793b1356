use terminal_paint::canvas::{Canvas, Layer};
use terminal_paint::color::{generate_colors, next_color, Color};
use terminal_paint::luma::{luma_glyph, luma_index, luma_values};

fn layer(brush: char, color: Color) -> Layer {
    Layer { brush, brush_color: color, changed: false }
}

#[test]
fn new_canvas_is_blank_and_unchanged() {
    let mut c = Canvas::new(4, 3);
    assert_eq!(c.width(), 4);
    assert_eq!(c.height(), 3);
    assert!(!c.need_repaint);
    let l = c.get(3, 2).unwrap();
    assert_eq!(l.brush, ' ');
    assert_eq!(l.brush_color, Color::White);
    assert!(c.drain_changed().is_empty());
}

#[test]
fn write_then_read_returns_written() {
    let mut c = Canvas::new(5, 5);
    c.set(2, 3, layer('x', Color::Red));
    let l = c.get(2, 3).unwrap();
    assert_eq!((l.brush, l.brush_color, l.changed), ('x', Color::Red, true));
    // the last row and column are writable too
    c.set(4, 4, layer('#', Color::Blue));
    let l = c.get(4, 4).unwrap();
    assert_eq!((l.brush, l.brush_color), ('#', Color::Blue));
    assert!(c.need_repaint);
}

#[test]
fn write_out_of_bounds_is_ignored() {
    let mut c = Canvas::new(3, 2);
    c.set(3, 0, layer('x', Color::Red));
    c.set(0, 2, layer('x', Color::Red));
    c.set(u16::MAX, u16::MAX, layer('x', Color::Red));
    assert!(c.get(3, 0).is_none());
    assert!(c.get(0, 2).is_none());
    assert!(!c.need_repaint);
    assert!(c.drain_changed().is_empty());
}

#[test]
fn drain_reports_each_change_once() {
    let mut c = Canvas::new(4, 4);
    c.set(2, 1, layer('a', Color::Green));
    c.set(0, 3, layer('b', Color::Red));
    c.set(2, 1, layer('c', Color::Blue));
    let out = c.drain_changed();
    assert_eq!(out, vec![(0, 3, 'b', Color::Red), (2, 1, 'c', Color::Blue)]);
    assert!(!c.need_repaint);
    // content stays, flags are cleared
    let l = c.get(2, 1).unwrap();
    assert_eq!((l.brush, l.changed), ('c', false));
    assert!(c.drain_changed().is_empty());
}

#[test]
fn clear_marks_every_cell_blank_and_changed() {
    let mut c = Canvas::new(2, 2);
    c.set(1, 1, layer('z', Color::Red));
    c.drain_changed();
    c.clear();
    let out = c.drain_changed();
    assert_eq!(out.len(), 4);
    assert!(out.iter().all(|&(_, _, g, col)| g == ' ' && col == Color::White));
}

#[test]
fn luma_ramp_lookups() {
    let ramp = luma_values();
    assert_eq!(ramp.len(), 92);
    assert_eq!(luma_glyph(0), ' ');
    assert_eq!(luma_glyph(91), '@');
    assert_eq!(luma_glyph(25), ')');
    assert_eq!(luma_index('@'), Some(91));
    assert_eq!(luma_index('x'), Some(49));
    assert_eq!(luma_index(' '), Some(0));
    assert_eq!(luma_index('~'), None);
}

#[test]
fn palette_advances_and_wraps() {
    let colors = generate_colors();
    assert_eq!(colors.len(), 16);
    assert_eq!(next_color(&colors, Color::White), Color::Grey);
    assert_eq!(next_color(&colors, Color::DarkCyan), Color::White);
    // a color outside the palette counts as its first entry
    assert_eq!(next_color(&colors, Color::Rgb { r: 1, g: 2, b: 3 }), Color::Grey);
    assert_eq!(next_color(&Vec::new(), Color::Red), Color::Red);
}
