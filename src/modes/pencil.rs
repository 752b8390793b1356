use vstd::prelude::*;

use crate::canvas::{write_cell, Layer};
use crate::event::{char_of, handle_keychar, primary_click, primary_click_of, Event};
use crate::modes::{Mode, PencilData};
use crate::state::{keeps_session, same_but_canvas, same_state, State};

verus! {

/// What the pencil does with `e`: a primary click writes the pencil glyph in
/// the active color under the pointer; a printable key becomes the pencil
/// glyph and the active glyph.
pub open spec fn pencil_step(s: State, e: Event, t: State) -> bool {
    match s.mode {
        Mode::Pencil(d) => match primary_click_of(e) {
            Some(p) => same_but_canvas(s, t) && t.virtual_display@ == write_cell(
                s.virtual_display@,
                p.0 as int,
                p.1 as int,
                d.pencil,
                s.color,
            ),
            None => match char_of(e) {
                Some(c) => {
                    &&& keeps_session(s, t)
                    &&& t.mode == Mode::Pencil(PencilData { pencil: c })
                    &&& t.glyph == c
                    &&& t.color == s.color
                    &&& t.pos == s.pos
                    &&& t.command == s.command
                    &&& t.virtual_display@ == s.virtual_display@
                },
                None => same_state(s, t),
            },
        },
        _ => false,
    }
}

/// The pencil: draws its glyph under primary clicks; a key picks the glyph.
pub fn pencil(event: &Event, state: &mut State)
    requires
        old(state).wf(),
        old(state).mode is Pencil,
    ensures
        final(state).wf(),
        pencil_step(*old(state), *event, *final(state)),
{
    let data = match state.mode {
        Mode::Pencil(d) => d,
        _ => return ,
    };
    if let Some((col, row)) = primary_click(event) {
        let color = state.color;
        state.virtual_display.set(col, row, Layer { brush: data.pencil, brush_color: color, changed: true });
    } else if let Some(code) = handle_keychar(event) {
        state.mode = Mode::Pencil(PencilData { pencil: code });
        state.glyph = code;
    }
}

} // verus!
