use vstd::prelude::*;

use crate::canvas::{read_cell, Grid};
use crate::color::Color;
use crate::event::{primary_click, primary_click_of, Event};
use crate::state::{keeps_session, same_state, State};

verus! {

/// The active color after sampling `(col, row)`: the cell's color, or black
/// for a cell outside the grid or holding the blank glyph.
pub open spec fn sampled_color(cells: Grid, col: int, row: int) -> Color {
    match read_cell(cells, col, row) {
        Some((g, c)) => if g != ' ' {
            c
        } else {
            Color::Black
        },
        None => Color::Black,
    }
}

/// The active glyph after sampling `(col, row)`: the cell's glyph, or `glyph`
/// unchanged for a cell outside the grid or holding the blank glyph.
pub open spec fn sampled_glyph(cells: Grid, col: int, row: int, glyph: char) -> char {
    match read_cell(cells, col, row) {
        Some((g, c)) => if g != ' ' {
            g
        } else {
            glyph
        },
        None => glyph,
    }
}

/// `t` is `s` after sampling the cell at `(col, row)` into the active color and glyph.
pub open spec fn sampled(s: State, col: int, row: int, t: State) -> bool {
    &&& keeps_session(s, t)
    &&& t.mode == s.mode
    &&& t.pos == s.pos
    &&& t.command == s.command
    &&& t.virtual_display@ == s.virtual_display@
    &&& t.color == sampled_color(s.virtual_display@, col, row)
    &&& t.glyph == sampled_glyph(s.virtual_display@, col, row, s.glyph)
}

/// What the eyedropper does with `e`: a primary click samples the cell under it.
pub open spec fn eyedropper_step(s: State, e: Event, t: State) -> bool {
    match primary_click_of(e) {
        Some(p) => sampled(s, p.0 as int, p.1 as int, t),
        None => same_state(s, t),
    }
}

/// The eyedropper: a primary click takes the color and glyph of the cell under it.
pub fn eyedropper(event: &Event, state: &mut State)
    requires
        old(state).wf(),
    ensures
        final(state).wf(),
        eyedropper_step(*old(state), *event, *final(state)),
{
    if let Some((col, row)) = primary_click(event) {
        state.eyedrop(col, row);
    }
}

} // verus!
