use terminal_paint::canvas::Layer;
use terminal_paint::color::Color;
use terminal_paint::event::{Event, KeyCode, KeyEvent, MouseButton, MouseEvent, MouseEventKind};
use terminal_paint::modes::brush::{base_brush, brush};
use terminal_paint::modes::content_brush::content_brush;
use terminal_paint::modes::eyedropper::eyedropper;
use terminal_paint::modes::hex::{hex, hex_digit};
use terminal_paint::modes::insert::insert;
use terminal_paint::modes::pencil::pencil;
use terminal_paint::modes::{BrushData, BrushMode, HexData, Mode, PencilData};
use terminal_paint::state::State;

fn key(c: char) -> Event {
    Event::Key(KeyEvent { code: KeyCode::Char(c) })
}

fn code(k: KeyCode) -> Event {
    Event::Key(KeyEvent { code: k })
}

fn mouse(kind: MouseEventKind, column: u16, row: u16) -> Event {
    Event::Mouse(MouseEvent { kind, column, row, alt: false })
}

fn click(column: u16, row: u16) -> Event {
    mouse(MouseEventKind::Down(MouseButton::Left), column, row)
}

fn glyph_at(s: &State, c: u16, r: u16) -> char {
    s.virtual_display.get(c, r).unwrap().brush
}

fn paint(s: &mut State, c: u16, r: u16, g: char) {
    s.virtual_display.set(c, r, Layer { brush: g, brush_color: Color::White, changed: true });
}

fn brush_state(size: u8, mode: BrushMode) -> State {
    let mut s = State::new(10, 10);
    s.mode = Mode::Brush(BrushData { size, mode });
    s
}

#[test]
fn additive_brush_at_center_gives_densest_glyph() {
    let mut s = brush_state(1, BrushMode::Add);
    brush(&click(5, 5), &mut s);
    assert_eq!(glyph_at(&s, 5, 5), '@');
    assert_eq!(s.virtual_display.get(5, 5).unwrap().brush_color, Color::White);
}

#[test]
fn subtractive_brush_at_center_reaches_blank_and_stays() {
    let mut s = brush_state(1, BrushMode::Subtract);
    paint(&mut s, 5, 5, '@');
    brush(&click(5, 5), &mut s);
    assert_eq!(glyph_at(&s, 5, 5), ' ');
    brush(&click(5, 5), &mut s);
    assert_eq!(glyph_at(&s, 5, 5), ' ');
}

#[test]
fn brush_falloff_weight_sets_edge_intensity() {
    // size 2, offset (1, 1): weight 1*100/2/2 + 1*100/2 = 75, intensity 25
    let mut s = State::new(10, 10);
    base_brush(&mut s, 5, 5, 2, BrushMode::Add);
    assert_eq!(glyph_at(&s, 6, 6), ')');
    // offset (0, 2): weight 4*100/2 = 200, outside the footprint
    assert_eq!(glyph_at(&s, 5, 7), ' ');
    // offset (2, 0): weight 4*100/2/2 = 100, intensity 0, written as blank
    assert!(s.virtual_display.get(7, 5).unwrap().changed);
    assert_eq!(glyph_at(&s, 7, 5), ' ');
    assert_eq!(glyph_at(&s, 5, 5), '@');
}

#[test]
fn brush_skips_the_outer_ring() {
    let mut s = brush_state(3, BrushMode::Add);
    brush(&click(0, 0), &mut s);
    assert!(!s.virtual_display.get(0, 0).unwrap().changed);
    assert!(!s.virtual_display.get(1, 0).unwrap().changed);
    assert!(s.virtual_display.get(1, 1).unwrap().changed);
    brush(&click(9, 9), &mut s);
    assert!(!s.virtual_display.get(9, 9).unwrap().changed);
    assert!(s.virtual_display.get(8, 8).unwrap().changed);
}

#[test]
fn brush_glyph_outside_ramp_counts_as_blank() {
    let mut s = State::new(10, 10);
    paint(&mut s, 6, 6, '~');
    base_brush(&mut s, 5, 5, 2, BrushMode::Add);
    assert_eq!(glyph_at(&s, 6, 6), ')');
}

#[test]
fn brush_keys_and_scroll_change_parameters() {
    let mut s = brush_state(1, BrushMode::Add);
    brush(&key('d'), &mut s);
    assert_eq!(s.mode, Mode::Brush(BrushData { size: 1, mode: BrushMode::Add }));
    brush(&key('s'), &mut s);
    brush(&mouse(MouseEventKind::ScrollUp, 0, 0), &mut s);
    brush(&key('f'), &mut s);
    assert_eq!(s.mode, Mode::Brush(BrushData { size: 3, mode: BrushMode::Subtract }));
    brush(&mouse(MouseEventKind::ScrollDown, 0, 0), &mut s);
    brush(&key('a'), &mut s);
    assert_eq!(s.mode, Mode::Brush(BrushData { size: 2, mode: BrushMode::Add }));
    let mut big = brush_state(255, BrushMode::Add);
    brush(&key('s'), &mut big);
    assert_eq!(big.mode, Mode::Brush(BrushData { size: 255, mode: BrushMode::Add }));
}

#[test]
fn content_brush_keeps_uniform_neighborhood() {
    let mut s = State::new(6, 6);
    s.mode = Mode::ContentBrush;
    for c in 1..4 {
        for r in 1..4 {
            paint(&mut s, c, r, 'x');
        }
    }
    s.virtual_display.drain_changed();
    s.color = Color::Red;
    content_brush(&click(2, 2), &mut s);
    assert_eq!(glyph_at(&s, 2, 2), 'x');
    assert_eq!(s.virtual_display.get(2, 2).unwrap().brush_color, Color::Red);
    // neighbors are only read
    assert!(!s.virtual_display.get(1, 1).unwrap().changed);
}

#[test]
fn content_brush_averages_clipped_neighborhood() {
    // corner (0, 0) sees a 2x2 block: '@' (91), three blanks (0): 91 / 4 = 22 -> 'L'
    let mut s = State::new(4, 4);
    paint(&mut s, 1, 1, '@');
    content_brush(&click(0, 0), &mut s);
    assert_eq!(glyph_at(&s, 0, 0), 'L');
    // a glyph outside the ramp counts as 50: (50 + 3 * 0) / 4 = 12 -> '<'
    let mut t = State::new(4, 4);
    paint(&mut t, 1, 0, '~');
    content_brush(&click(0, 0), &mut t);
    assert_eq!(glyph_at(&t, 0, 0), '<');
}

#[test]
fn hex_six_digits_set_color_and_switch_to_brush() {
    let mut s = State::new(8, 8);
    s.mode = Mode::Hex(HexData::default());
    for c in ['f', 'f', '0', '0', '8'] {
        hex(&key(c), &mut s);
    }
    assert!(matches!(s.mode, Mode::Hex(_)));
    assert_eq!(s.color, Color::White);
    hex(&key('0'), &mut s);
    assert_eq!(s.color, Color::Rgb { r: 255, g: 0, b: 128 });
    assert_eq!(s.mode, Mode::Brush(BrushData { size: 1, mode: BrushMode::Add }));
}

#[test]
fn hex_ignores_other_keys_and_takes_upper_case() {
    let mut s = State::new(8, 8);
    s.mode = Mode::Hex(HexData::default());
    for c in ['A', 'z', 'b', '1', 'g', '2', 'C', '3'] {
        hex(&key(c), &mut s);
    }
    assert_eq!(s.color, Color::Rgb { r: 0xab, g: 0x12, b: 0xc3 });
    assert_eq!(hex_digit('F'), Some(15));
    assert_eq!(hex_digit('9'), Some(9));
    assert_eq!(hex_digit('x'), None);
}

#[test]
fn pencil_draws_and_changes_glyph() {
    let mut s = State::new(8, 8);
    s.mode = Mode::Pencil(PencilData { pencil: '*' });
    s.color = Color::Green;
    pencil(&click(3, 4), &mut s);
    assert_eq!(glyph_at(&s, 3, 4), '*');
    pencil(&key('o'), &mut s);
    assert_eq!(s.mode, Mode::Pencil(PencilData { pencil: 'o' }));
    assert_eq!(s.glyph, 'o');
    assert_eq!(glyph_at(&s, 3, 4), '*');
    pencil(&mouse(MouseEventKind::Drag(MouseButton::Left), 7, 7), &mut s);
    assert_eq!(glyph_at(&s, 7, 7), 'o');
    // other buttons do not draw
    pencil(&mouse(MouseEventKind::Down(MouseButton::Right), 1, 1), &mut s);
    assert_eq!(glyph_at(&s, 1, 1), ' ');
}

#[test]
fn eyedropper_samples_color_and_glyph() {
    let mut s = State::new(8, 8);
    s.mode = Mode::Eyedropper;
    s.virtual_display.set(2, 2, Layer { brush: 'k', brush_color: Color::Magenta, changed: true });
    eyedropper(&click(2, 2), &mut s);
    assert_eq!((s.color, s.glyph), (Color::Magenta, 'k'));
    // a blank cell gives black and keeps the glyph
    eyedropper(&click(5, 5), &mut s);
    assert_eq!((s.color, s.glyph), (Color::Black, 'k'));
    s.color = Color::Red;
    eyedropper(&click(50, 50), &mut s);
    assert_eq!((s.color, s.glyph), (Color::Black, 'k'));
    assert!(s.virtual_display.get(2, 2).unwrap().changed);
}

#[test]
fn insert_types_moves_and_erases() {
    let mut s = State::new(5, 3);
    s.mode = Mode::Insert;
    s.pos = (3, 1);
    insert(&key('h'), &mut s);
    insert(&key('i'), &mut s);
    assert_eq!(glyph_at(&s, 3, 1), 'h');
    assert_eq!(glyph_at(&s, 4, 1), 'i');
    assert_eq!(s.pos, (4, 1));
    insert(&code(KeyCode::Backspace), &mut s);
    assert_eq!(s.pos, (3, 1));
    assert_eq!(glyph_at(&s, 3, 1), ' ');
    assert_eq!(glyph_at(&s, 4, 1), 'i');
    insert(&code(KeyCode::Up), &mut s);
    insert(&code(KeyCode::Up), &mut s);
    assert_eq!(s.pos, (3, 0));
    insert(&code(KeyCode::Down), &mut s);
    insert(&code(KeyCode::Down), &mut s);
    insert(&code(KeyCode::Down), &mut s);
    assert_eq!(s.pos, (3, 2));
    insert(&code(KeyCode::Left), &mut s);
    assert_eq!(s.pos, (2, 2));
    insert(&code(KeyCode::Right), &mut s);
    assert_eq!(s.pos, (3, 2));
    s.pos = (0, 0);
    insert(&code(KeyCode::Left), &mut s);
    assert_eq!(s.pos, (0, 0));
}
