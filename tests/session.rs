use terminal_paint::canvas::Layer;
use terminal_paint::color::Color;
use terminal_paint::event::{
    get_click_pos, handle_click, handle_keychar, Event, KeyCode, KeyEvent, MouseButton, MouseEvent, MouseEventKind,
};
use terminal_paint::modes::command::process_shortcuts;
use terminal_paint::modes::{BrushData, BrushMode, HexData, Mode, PencilData};
use terminal_paint::state::{draw, Command, State};
use terminal_paint::ui::{status_bar, Widget, UI};

fn key(c: char) -> Event {
    Event::Key(KeyEvent { code: KeyCode::Char(c) })
}

fn esc() -> Event {
    Event::Key(KeyEvent { code: KeyCode::Esc })
}

fn down(column: u16, row: u16, alt: bool) -> Event {
    Event::Mouse(MouseEvent { kind: MouseEventKind::Down(MouseButton::Left), column, row, alt })
}

#[test]
fn fresh_session_defaults() {
    let s = State::new(20, 10);
    assert_eq!(s.mode, Mode::Command);
    assert_eq!(s.color, Color::White);
    assert_eq!(s.glyph, '*');
    assert_eq!(s.command, Command::Idle);
    assert_eq!(s.colors.len(), 16);
}

#[test]
fn b_enters_default_brush() {
    let mut s = State::new(10, 10);
    assert!(draw(&key('b'), &mut s));
    assert_eq!(s.mode, Mode::Brush(BrushData { size: 1, mode: BrushMode::Add }));
    assert_eq!(s.command, Command::Enter(s.mode));
    assert!(s.repaint().is_empty());
}

#[test]
fn escape_returns_to_command_then_ends() {
    let mut s = State::new(10, 10);
    assert!(draw(&key('d'), &mut s));
    assert!(draw(&down(3, 3, false), &mut s));
    s.repaint();
    assert!(draw(&esc(), &mut s));
    assert_eq!(s.mode, Mode::Command);
    assert!(s.repaint().is_empty());
    assert_eq!(s.virtual_display.get(3, 3).unwrap().brush, '*');
    assert!(!draw(&esc(), &mut s));
    assert_eq!(s.mode, Mode::Command);
}

#[test]
fn escape_discards_partial_hex_entry() {
    let mut s = State::new(10, 10);
    draw(&key('h'), &mut s);
    assert_eq!(s.mode, Mode::Hex(HexData::default()));
    draw(&key('1'), &mut s);
    draw(&esc(), &mut s);
    assert_eq!(s.mode, Mode::Command);
    draw(&key('h'), &mut s);
    assert_eq!(s.mode, Mode::Hex(HexData::default()));
}

#[test]
fn shortcuts_select_modes() {
    let mut s = State::new(10, 10);
    process_shortcuts(&key('i'), &mut s);
    assert_eq!(s.mode, Mode::Insert);
    process_shortcuts(&key('e'), &mut s);
    assert_eq!(s.mode, Mode::Eyedropper);
    process_shortcuts(&key('c'), &mut s);
    assert_eq!(s.mode, Mode::ContentBrush);
    s.glyph = '#';
    process_shortcuts(&key('d'), &mut s);
    assert_eq!(s.mode, Mode::Pencil(PencilData { pencil: '#' }));
    process_shortcuts(&key('x'), &mut s);
    assert_eq!(s.mode, Mode::Pencil(PencilData { pencil: '#' }));
}

#[test]
fn shortcuts_only_apply_in_command_mode() {
    let mut s = State::new(10, 10);
    draw(&key('i'), &mut s);
    draw(&key('b'), &mut s);
    assert_eq!(s.mode, Mode::Insert);
    assert_eq!(s.virtual_display.get(0, 0).unwrap().brush, 'b');
}

#[test]
fn q_clears_and_f_cycles_color() {
    let mut s = State::new(3, 3);
    s.virtual_display.set(1, 1, Layer { brush: 'x', brush_color: Color::Red, changed: true });
    s.repaint();
    draw(&key('q'), &mut s);
    assert_eq!(s.command, Command::Clear);
    assert_eq!(s.virtual_display.get(1, 1).unwrap().brush, ' ');
    assert_eq!(s.repaint().len(), 9);
    draw(&key('f'), &mut s);
    assert_eq!(s.color, Color::Grey);
}

#[test]
fn alt_click_samples_instead_of_drawing() {
    let mut s = State::new(10, 10);
    s.virtual_display.set(4, 4, Layer { brush: 'w', brush_color: Color::Blue, changed: true });
    draw(&key('d'), &mut s);
    assert!(draw(&down(4, 4, true), &mut s));
    assert_eq!(s.color, Color::Blue);
    assert_eq!(s.virtual_display.get(4, 4).unwrap().brush, 'w');
}

#[test]
fn repaint_counts_frames_with_changes() {
    let mut s = State::new(5, 5);
    draw(&key('d'), &mut s);
    draw(&down(2, 2, false), &mut s);
    assert_eq!(s.repaint(), vec![(2, 2, '*', Color::White)]);
    assert_eq!(s.repaint_counter, 1);
    assert!(s.repaint().is_empty());
    assert_eq!(s.repaint_counter, 1);
}

#[test]
fn labels_and_colors() {
    assert_eq!(Mode::ContentBrush.name(), "CONTENT BRUSH");
    assert_eq!(Mode::Brush(BrushData { size: 1, mode: BrushMode::Add }).get_color(), Color::DarkGreen);
    assert_eq!(Command::Enter(Mode::Hex(HexData::default())).text(), "ENTER HEX");
    assert_eq!(Command::Clear.text(), "CLEAR");
    assert_eq!(Command::_Save.text(), "");
}

#[test]
fn event_accessors() {
    assert_eq!(handle_keychar(&key('k')), Some('k'));
    assert_eq!(handle_keychar(&esc()), None);
    assert!(handle_click(&down(1, 2, false)).is_some());
    let up = Event::Mouse(MouseEvent { kind: MouseEventKind::Up(MouseButton::Left), column: 1, row: 2, alt: false });
    assert!(handle_click(&up).is_none());
    assert_eq!(get_click_pos(&down(300, 7, false)), Some((44, 7)));
}

#[test]
fn widget_hit_test_and_offset() {
    let mut w = Widget::new(String::from("RED"), Color::Red);
    assert_eq!(w.get_width(), 5);
    let mut offset: u8 = 10;
    w.process(Some((12, 4)), 5, &mut offset, Color::White);
    assert!(w.clicked());
    assert_eq!(offset, 15);
    let mut v = Widget::new(String::from("RED"), Color::Red);
    let mut offset: u8 = 10;
    v.process(Some((11, 4)), 5, &mut offset, Color::White);
    assert!(!v.clicked());
    let mut offset: u8 = 254;
    v.process(None, 5, &mut offset, Color::White);
    assert_eq!(offset, 255);
}

#[test]
fn render_spreads_free_columns() {
    let mut ui = UI {
        elements: vec![],
        pos: None,
        max: (30, 10),
        pad: 0,
        final_pad: 0,
        offset: 0,
        bg_color: Color::DarkRed,
    };
    ui.push(Widget::new(String::from("AB"), Color::White));
    ui.push(Widget::new(String::from("C"), Color::White));
    ui.push(Widget::new(String::from("DEF"), Color::White));
    // widths 4 + 3 + 5 = 12, free 18 over 2 gaps
    assert_eq!(ui.render((30, 10), Color::DarkRed), 9);
    assert_eq!((ui.gap(0), ui.gap(2)), (9, 0));
    assert_eq!(ui.render((13, 10), Color::DarkRed), 0);
    assert_eq!(ui.gap(2), 1);
}

#[test]
fn status_bar_click_picks_cyan() {
    let mut s = State::new(40, 10);
    // CYAN occupies columns 1..=6; its label is hit at columns 2..=5 of the last row
    let ui = status_bar(&mut s, &down(3, 9, false), 40, 10);
    assert!(ui.elements[0].clicked());
    assert_eq!(s.color, Color::Cyan);
    assert_eq!(ui.elements[1].text, "COMMAND");
    assert_eq!(ui.elements[2].color, Color::Cyan);
    // widths 6 + 9 + 3 + 5 = 23, free 17 over 3 gaps
    assert_eq!(s.pad, 5);
    assert_eq!(ui.gap(3), 2);
}

#[test]
fn widget_hit_on_bottom_row_of_tall_terminal() {
    // with 257 rows the bottom row is 256, whose low eight bits are 0
    let mut w = Widget::new(String::from("RED"), Color::Red);
    let mut offset: u8 = 0;
    w.process(Some((2, 0)), 257, &mut offset, Color::White);
    assert!(w.clicked());
    let mut v = Widget::new(String::from("RED"), Color::Red);
    let mut offset: u8 = 0;
    v.process(Some((2, 1)), 257, &mut offset, Color::White);
    assert!(!v.clicked());
}

#[test]
fn status_bar_click_on_tall_terminal() {
    let mut s = State::new(40, 300);
    // row 299 reaches the bar as 299 % 256 = 43
    let ui = status_bar(&mut s, &down(3, 299, false), 40, 300);
    assert!(ui.elements[0].clicked());
    assert_eq!(s.color, Color::Cyan);
}
