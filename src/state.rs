use vstd::prelude::*;

use crate::canvas::{blank_layer, drain_report, flushed, grid_height, has_changes, in_bounds, Canvas, Change};
use crate::color::{generate_colors, palette, Color};
use crate::event::{click_of, handle_click, is_escape, Event, KeyCode, KeyEvent};
use crate::modes::brush::{brush, brush_step};
use crate::modes::command::{process_shortcuts, shortcut_step};
use crate::modes::content_brush::{content_brush, content_brush_step};
use crate::modes::eyedropper::{eyedropper, eyedropper_step, sampled};
use crate::modes::hex::{hex, hex_step};
use crate::modes::insert::{insert, insert_step};
use crate::modes::pencil::{pencil, pencil_step};
use crate::modes::{mode_name, mode_wf, BrushData, BrushMode, Mode};

verus! {

/// The last command the session carried out, as the status bar shows it.
#[derive(Clone, Copy, Debug, PartialEq, Eq)]
pub enum Command {
    Enter(Mode),
    _Save,
    Clear,
    _Undo,
    _Redo,
    Idle,
    _Hex,
}

/// Everything one drawing session holds: the active tool, the active color
/// and glyph, the cursor, and the grid.
pub struct State {
    pub repaint_counter: u32,
    pub mode: Mode,
    pub color: Color,
    pub glyph: char,
    pub pos: (u16, u16),
    pub command: Command,
    pub drag_pos: (u16, u16),
    pub colors: Vec<Color>,
    pub pad: usize,
    pub virtual_display: Canvas,
}

/// The status-bar text of a command.
pub open spec fn command_text(c: Command) -> Seq<char> {
    match c {
        Command::Enter(m) => "ENTER "@ + mode_name(m),
        Command::Clear => "CLEAR"@,
        Command::Idle => "REDO"@,
        _ => ""@,
    }
}

impl Command {
    /// The status-bar text of this command.
    pub fn text(&self) -> (r: String)
        ensures
            r@ == command_text(*self),
    {
        match self {
            Command::Enter(mode) => {
                let name = mode.name();
                let mut s = String::from_str("ENTER ");
                s.append(name.as_str());
                s
            },
            Command::Clear => String::from_str("CLEAR"),
            Command::Idle => String::from_str("REDO"),
            _ => {
                proof {
                    reveal_strlit("");
                }
                String::new()
            },
        }
    }
}

/// The fields that no tool changes are equal in `a` and `b`.
pub open spec fn keeps_session(a: State, b: State) -> bool {
    &&& a.repaint_counter == b.repaint_counter
    &&& a.drag_pos == b.drag_pos
    &&& a.colors@ == b.colors@
    &&& a.pad == b.pad
}

/// `b` is `a` with at most the grid and the mode changed.
pub open spec fn same_but_canvas_and_mode(a: State, b: State) -> bool {
    &&& keeps_session(a, b)
    &&& a.color == b.color
    &&& a.glyph == b.glyph
    &&& a.pos == b.pos
    &&& a.command == b.command
}

/// `b` is `a` with at most the grid changed.
pub open spec fn same_but_canvas(a: State, b: State) -> bool {
    &&& same_but_canvas_and_mode(a, b)
    &&& a.mode == b.mode
}

/// `b` is `a` with nothing changed that can be observed.
pub open spec fn same_state(a: State, b: State) -> bool {
    &&& same_but_canvas(a, b)
    &&& a.virtual_display@ == b.virtual_display@
}

/// What the active mode does with `e`.
pub open spec fn run_step(s: State, e: Event, t: State) -> bool {
    match s.mode {
        Mode::Command => shortcut_step(s, e, t),
        Mode::Insert => insert_step(s, e, t),
        Mode::Pencil(_) => pencil_step(s, e, t),
        Mode::ContentBrush => content_brush_step(s, e, t),
        Mode::Eyedropper => eyedropper_step(s, e, t),
        Mode::Brush(_) => brush_step(s, e, t),
        Mode::Hex(_) => hex_step(s, e, t),
    }
}

/// What the session does with one event, and whether it goes on: Escape in
/// Command mode ends the session and changes nothing; Escape in any other mode
/// returns to Command mode and leaves the grid alone; a press or drag with Alt
/// held samples the cell under it; any other event goes to the active mode.
pub open spec fn draw_step(s: State, e: Event, t: State, go_on: bool) -> bool {
    if is_escape(e) {
        if s.mode is Command {
            !go_on && same_state(s, t)
        } else {
            &&& go_on
            &&& keeps_session(s, t)
            &&& t.mode == Mode::Command
            &&& t.command == Command::Enter(Mode::Command)
            &&& t.color == s.color
            &&& t.glyph == s.glyph
            &&& t.pos == s.pos
            &&& t.virtual_display@ == s.virtual_display@
        }
    } else {
        &&& go_on
        &&& match click_of(e) {
            Some(m) => if m.alt {
                sampled(s, m.column as int, m.row as int, t)
            } else {
                run_step(s, e, t)
            },
            None => run_step(s, e, t),
        }
    }
}

/// The repaint counter after one more repaint, wrapping at `u32::MAX`.
pub open spec fn next_count(n: u32) -> u32 {
    if n < u32::MAX {
        (n + 1) as u32
    } else {
        0
    }
}

/// Processes one event; returns `false` when the session is to end.
pub fn draw(event: &Event, state: &mut State) -> (go_on: bool)
    requires
        old(state).wf(),
    ensures
        final(state).wf(),
        draw_step(*old(state), *event, *final(state), go_on),
{
    if let Event::Key(k) = event {
        if let KeyCode::Esc = k.code {
            if let Mode::Command = state.mode {
                return false;
            }
            state.mode = Mode::Command;
            state.command = Command::Enter(state.mode);
            return true;
        }
    }
    if let Some(m) = handle_click(event) {
        if m.alt {
            state.eyedrop(m.column, m.row);
            return true;
        }
    }
    state.run(event);
    true
}

impl State {
    /// The grid is well formed and the active mode's parameters are valid.
    pub open spec fn wf(&self) -> bool {
        &&& self.virtual_display.wf()
        &&& mode_wf(self.mode)
    }

    /// A fresh session on a `width` × `height` grid: Command mode, white, glyph `*`.
    pub fn new(width: u16, height: u16) -> (r: State)
        requires
            width > 0,
            height > 0,
        ensures
            r.wf(),
            r.repaint_counter == 0,
            r.mode == Mode::Command,
            r.color == Color::White,
            r.glyph == '*',
            r.pos == (0u16, 0u16),
            r.command == Command::Idle,
            r.drag_pos == (0u16, 0u16),
            r.colors@ == palette(),
            r.pad == 0,
            r.virtual_display@.len() == width,
            grid_height(r.virtual_display@) == height,
            forall|c: int, w: int|
                in_bounds(r.virtual_display@, c, w) ==> #[trigger] r.virtual_display@[c][w] == blank_layer(false),
    {
        State {
            repaint_counter: 0,
            mode: Mode::Command,
            color: Color::White,
            glyph: '*',
            pos: (0, 0),
            command: Command::Idle,
            drag_pos: (0, 0),
            colors: generate_colors(),
            pad: 0,
            virtual_display: Canvas::new(width, height),
        }
    }

    /// Samples the cell at `(col, row)`: a drawn cell gives its color and glyph;
    /// a blank cell or a position outside the grid gives black and keeps the glyph.
    pub fn eyedrop(&mut self, col: u16, row: u16)
        requires
            old(self).wf(),
        ensures
            final(self).wf(),
            sampled(*old(self), col as int, row as int, *final(self)),
    {
        match self.virtual_display.get(col, row) {
            Some(el) => {
                if el.brush != ' ' {
                    self.color = el.brush_color;
                    self.glyph = el.brush;
                } else {
                    self.color = Color::Black;
                }
            },
            None => {
                self.color = Color::Black;
            },
        }
    }

    /// Hands the event to the active mode.
    pub fn run(&mut self, event: &Event)
        requires
            old(self).wf(),
        ensures
            final(self).wf(),
            run_step(*old(self), *event, *final(self)),
    {
        match self.mode {
            Mode::Command => process_shortcuts(event, self),
            Mode::Insert => insert(event, self),
            Mode::Pencil(_) => pencil(event, self),
            Mode::ContentBrush => content_brush(event, self),
            Mode::Eyedropper => eyedropper(event, self),
            Mode::Brush(_) => brush(event, self),
            Mode::Hex(_) => hex(event, self),
        }
    }

    /// Reports the cells changed since the last repaint and clears their
    /// flags; counts the repaint when there was something to draw.
    pub fn repaint(&mut self) -> (out: Vec<Change>)
        requires
            old(self).wf(),
        ensures
            final(self).wf(),
            drain_report(old(self).virtual_display@, out@),
            final(self).virtual_display@ == flushed(old(self).virtual_display@),
            final(self).repaint_counter == if has_changes(old(self).virtual_display@) {
                next_count(old(self).repaint_counter)
            } else {
                old(self).repaint_counter
            },
            final(self).mode == old(self).mode,
            final(self).color == old(self).color,
            final(self).glyph == old(self).glyph,
            final(self).pos == old(self).pos,
            final(self).command == old(self).command,
            final(self).drag_pos == old(self).drag_pos,
            final(self).colors@ == old(self).colors@,
            final(self).pad == old(self).pad,
    {
        if self.virtual_display.need_repaint {
            self.repaint_counter = if self.repaint_counter < u32::MAX {
                self.repaint_counter + 1
            } else {
                0
            };
        }
        self.virtual_display.drain_changed()
    }
}

/// In Command mode the key `b` selects a brush of size 1 that adds density,
/// and leaves the grid as it was.
pub proof fn lemma_b_selects_brush(s: State, t: State, go_on: bool)
    requires
        s.mode is Command,
        draw_step(s, Event::Key(KeyEvent { code: KeyCode::Char('b') }), t, go_on),
    ensures
        go_on,
        t.mode == Mode::Brush(BrushData { size: 1, mode: BrushMode::Add }),
        t.virtual_display@ == s.virtual_display@,
{
}

/// Escape ends the session from Command mode; from any other mode it returns
/// to Command mode without touching the grid.
pub proof fn lemma_escape(s: State, t: State, go_on: bool)
    requires
        draw_step(s, Event::Key(KeyEvent { code: KeyCode::Esc }), t, go_on),
    ensures
        s.mode is Command ==> !go_on && t.virtual_display@ == s.virtual_display@ && t.mode == s.mode,
        !(s.mode is Command) ==> go_on && t.mode == Mode::Command && t.virtual_display@ == s.virtual_display@,
{
}

} // verus!
