use vstd::prelude::*;

verus! {

/// A key as the input source reports it.
#[derive(Clone, Copy, Debug, PartialEq, Eq, Structural)]
pub enum KeyCode {
    Char(char),
    Esc,
    Left,
    Right,
    Up,
    Down,
    Backspace,
    Enter,
    Other,
}

/// A key press.
#[derive(Clone, Copy, Debug, PartialEq, Eq, Structural)]
pub struct KeyEvent {
    pub code: KeyCode,
}

#[derive(Clone, Copy, Debug, PartialEq, Eq, Structural)]
pub enum MouseButton {
    Left,
    Right,
    Middle,
}

#[derive(Clone, Copy, Debug, PartialEq, Eq, Structural)]
pub enum MouseEventKind {
    Down(MouseButton),
    Up(MouseButton),
    Drag(MouseButton),
    Moved,
    ScrollDown,
    ScrollUp,
}

/// A pointer event at a cell; `alt` tells whether the Alt modifier was held.
#[derive(Clone, Copy, Debug, PartialEq, Eq, Structural)]
pub struct MouseEvent {
    pub kind: MouseEventKind,
    pub column: u16,
    pub row: u16,
    pub alt: bool,
}

/// An input event.
#[derive(Clone, Copy, Debug, PartialEq, Eq, Structural)]
pub enum Event {
    Key(KeyEvent),
    Mouse(MouseEvent),
    Resize(u16, u16),
    FocusGained,
    FocusLost,
}

/// The key of a key event.
pub open spec fn key_of(e: Event) -> Option<KeyEvent> {
    match e {
        Event::Key(k) => Some(k),
        _ => None,
    }
}

/// The character of a printable key press.
pub open spec fn char_of(e: Event) -> Option<char> {
    match e {
        Event::Key(KeyEvent { code: KeyCode::Char(c) }) => Some(c),
        _ => None,
    }
}

/// A press or drag of any button.
pub open spec fn click_of(e: Event) -> Option<MouseEvent> {
    match e {
        Event::Mouse(m) => match m.kind {
            MouseEventKind::Down(_) | MouseEventKind::Drag(_) => Some(m),
            _ => None,
        },
        _ => None,
    }
}

/// The cell under a press or drag of the primary button.
pub open spec fn primary_click_of(e: Event) -> Option<(u16, u16)> {
    match e {
        Event::Mouse(m) => match m.kind {
            MouseEventKind::Down(MouseButton::Left) | MouseEventKind::Drag(MouseButton::Left) => Some(
                (m.column, m.row),
            ),
            _ => None,
        },
        _ => None,
    }
}

/// The position of a press or drag, each coordinate cut to its low eight bits.
pub open spec fn click_pos_of(e: Event) -> Option<(u8, u8)> {
    match click_of(e) {
        Some(m) => Some(((m.column % 256) as u8, (m.row % 256) as u8)),
        None => None,
    }
}

/// The escape key, which leaves a mode or ends the session.
pub open spec fn is_escape(e: Event) -> bool {
    e == Event::Key(KeyEvent { code: KeyCode::Esc })
}

/// The key press carried by `event`.
pub fn handle_keyboard(event: &Event) -> (r: Option<KeyEvent>)
    ensures
        r == key_of(*event),
{
    match event {
        Event::Key(e) => Some(*e),
        _ => None,
    }
}

/// The key code carried by `event`.
pub fn handle_keycode(event: &Event) -> (r: Option<KeyCode>)
    ensures
        r == (match key_of(*event) {
            Some(k) => Some(k.code),
            None => None,
        }),
{
    match handle_keyboard(event) {
        Some(e) => Some(e.code),
        None => None,
    }
}

/// The character of a printable key press.
pub fn handle_keychar(event: &Event) -> (r: Option<char>)
    ensures
        r == char_of(*event),
{
    match handle_keycode(event) {
        Some(KeyCode::Char(c)) => Some(c),
        _ => None,
    }
}

/// The pointer event carried by `event`.
pub fn handle_mouse(event: &Event) -> (r: Option<MouseEvent>)
    ensures
        r == (match *event {
            Event::Mouse(m) => Some(m),
            _ => None,
        }),
{
    match event {
        Event::Mouse(m) => Some(*m),
        _ => None,
    }
}

/// A press or drag of any button.
pub fn handle_click(event: &Event) -> (r: Option<MouseEvent>)
    ensures
        r == click_of(*event),
{
    match handle_mouse(event) {
        Some(m) => match m.kind {
            MouseEventKind::Down(_) | MouseEventKind::Drag(_) => Some(m),
            _ => None,
        },
        None => None,
    }
}

/// The cell under a press or drag of the primary button.
pub fn primary_click(event: &Event) -> (r: Option<(u16, u16)>)
    ensures
        r == primary_click_of(*event),
{
    match handle_mouse(event) {
        Some(m) => match m.kind {
            MouseEventKind::Down(MouseButton::Left) | MouseEventKind::Drag(MouseButton::Left) => Some(
                (m.column, m.row),
            ),
            _ => None,
        },
        None => None,
    }
}

/// The position of a press or drag, each coordinate cut to its low eight bits.
pub fn get_click_pos(event: &Event) -> (r: Option<(u8, u8)>)
    ensures
        r == click_pos_of(*event),
{
    match handle_click(event) {
        Some(m) => Some(((m.column % 256) as u8, (m.row % 256) as u8)),
        None => None,
    }
}

} // verus!
