use vstd::prelude::*;

use crate::canvas::cleared;
use crate::color::{next_color, palette_successor};
use crate::event::{char_of, handle_keychar, Event};
use crate::modes::{default_brush, empty_hex, BrushData, HexData, Mode, PencilData};
use crate::state::{keeps_session, same_state, Command, State};

verus! {

/// `t` is `s` switched to mode `m`, with that recorded as the last command.
pub open spec fn enters(s: State, t: State, m: Mode) -> bool {
    &&& keeps_session(s, t)
    &&& t.mode == m
    &&& t.command == Command::Enter(m)
    &&& t.color == s.color
    &&& t.glyph == s.glyph
    &&& t.pos == s.pos
    &&& t.virtual_display@ == s.virtual_display@
}

/// What a Command-mode key does: `i`, `d`, `e`, `b`, `c` and `h` enter Insert,
/// Pencil (with the active glyph), Eyedropper, a fresh Brush, ContentBrush and
/// a fresh Hex entry; `q` clears the grid; `f` steps the active color through
/// the palette. Any other event changes nothing.
pub open spec fn shortcut_step(s: State, e: Event, t: State) -> bool {
    match char_of(e) {
        Some(c) => if c == 'i' {
            enters(s, t, Mode::Insert)
        } else if c == 'd' {
            enters(s, t, Mode::Pencil(PencilData { pencil: s.glyph }))
        } else if c == 'e' {
            enters(s, t, Mode::Eyedropper)
        } else if c == 'b' {
            enters(s, t, Mode::Brush(default_brush()))
        } else if c == 'c' {
            enters(s, t, Mode::ContentBrush)
        } else if c == 'h' {
            enters(s, t, Mode::Hex(empty_hex()))
        } else if c == 'q' {
            &&& keeps_session(s, t)
            &&& t.mode == s.mode
            &&& t.command == Command::Clear
            &&& t.color == s.color
            &&& t.glyph == s.glyph
            &&& t.pos == s.pos
            &&& t.virtual_display@ == cleared(s.virtual_display@)
        } else if c == 'f' {
            &&& keeps_session(s, t)
            &&& t.mode == s.mode
            &&& t.command == s.command
            &&& t.color == palette_successor(s.colors@, s.color)
            &&& t.glyph == s.glyph
            &&& t.pos == s.pos
            &&& t.virtual_display@ == s.virtual_display@
        } else {
            same_state(s, t)
        },
        None => same_state(s, t),
    }
}

/// The Command-mode key shortcuts.
pub fn process_shortcuts(event: &Event, state: &mut State)
    requires
        old(state).wf(),
    ensures
        final(state).wf(),
        shortcut_step(*old(state), *event, *final(state)),
{
    match handle_keychar(event) {
        Some('i') => {
            state.mode = Mode::Insert;
            state.command = Command::Enter(state.mode);
        },
        Some('d') => {
            state.mode = Mode::Pencil(PencilData { pencil: state.glyph });
            state.command = Command::Enter(state.mode);
        },
        Some('e') => {
            state.mode = Mode::Eyedropper;
            state.command = Command::Enter(state.mode);
        },
        Some('b') => {
            state.mode = Mode::Brush(BrushData::default());
            state.command = Command::Enter(state.mode);
        },
        Some('c') => {
            state.mode = Mode::ContentBrush;
            state.command = Command::Enter(state.mode);
        },
        Some('h') => {
            let fresh = HexData::default();
            assert(fresh.wf()) by {
                assert(crate::modes::hex_slots(fresh) =~= seq![None, None, None, None, None, None]);
            }
            state.mode = Mode::Hex(fresh);
            state.command = Command::Enter(state.mode);
        },
        Some('q') => {
            state.virtual_display.clear();
            state.command = Command::Clear;
        },
        Some('f') => {
            state.color = next_color(&state.colors, state.color);
        },
        _ => {},
    }
}

} // verus!
