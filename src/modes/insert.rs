use vstd::prelude::*;

use crate::canvas::{grid_height, write_cell, Layer};
use crate::event::{handle_keyboard, key_of, Event, KeyCode};
use crate::state::{same_state, same_but_canvas_and_mode, State};

verus! {

/// One step back, staying at 0.
pub open spec fn step_back(v: u16) -> u16 {
    if v > 0 {
        (v - 1) as u16
    } else {
        v
    }
}

/// One step forward, staying on the last index below `limit`.
pub open spec fn step_forward(v: u16, limit: int) -> u16 {
    if v + 1 < limit {
        (v + 1) as u16
    } else {
        v
    }
}

/// What Insert mode does with `e` at the cursor `s.pos`: a printable key writes
/// its glyph in the active color and moves the cursor right; the arrow keys
/// move the cursor; Backspace moves it left and blanks the cell it lands on.
pub open spec fn insert_step(s: State, e: Event, t: State) -> bool {
    let col = s.pos.0;
    let row = s.pos.1;
    let cells = s.virtual_display@;
    let width = cells.len() as int;
    let height = grid_height(cells);
    match key_of(e) {
        Some(k) => {
            &&& same_but_canvas_and_mode(State { pos: t.pos, ..s }, t)
            &&& t.mode == s.mode
            &&& match k.code {
                KeyCode::Char(c) => t.pos == (step_forward(col, width), row) && t.virtual_display@ == write_cell(
                    cells,
                    col as int,
                    row as int,
                    c,
                    s.color,
                ),
                KeyCode::Left => t.pos == (step_back(col), row) && t.virtual_display@ == cells,
                KeyCode::Right => t.pos == (step_forward(col, width), row) && t.virtual_display@ == cells,
                KeyCode::Up => t.pos == (col, step_back(row)) && t.virtual_display@ == cells,
                KeyCode::Down => t.pos == (col, step_forward(row, height)) && t.virtual_display@ == cells,
                KeyCode::Backspace => t.pos == (step_back(col), row) && t.virtual_display@ == write_cell(
                    cells,
                    step_back(col) as int,
                    row as int,
                    ' ',
                    s.color,
                ),
                _ => t.pos == s.pos && t.virtual_display@ == cells,
            }
        },
        None => same_state(s, t),
    }
}

/// Insert mode: typing at the cursor.
pub fn insert(event: &Event, state: &mut State)
    requires
        old(state).wf(),
    ensures
        final(state).wf(),
        insert_step(*old(state), *event, *final(state)),
{
    let key = match handle_keyboard(event) {
        Some(k) => k,
        None => return ,
    };
    let (col, row) = state.pos;
    let width = state.virtual_display.width();
    let height = state.virtual_display.height();
    let color = state.color;
    match key.code {
        KeyCode::Char(code) => {
            state.virtual_display.set(col, row, Layer { brush: code, brush_color: color, changed: true });
            state.pos = (if col < width - 1 { col + 1 } else { col }, row);
        },
        KeyCode::Left => {
            state.pos = (if col > 0 { col - 1 } else { col }, row);
        },
        KeyCode::Right => {
            state.pos = (if col < width - 1 { col + 1 } else { col }, row);
        },
        KeyCode::Up => {
            state.pos = (col, if row > 0 { row - 1 } else { row });
        },
        KeyCode::Down => {
            state.pos = (col, if row < height - 1 { row + 1 } else { row });
        },
        KeyCode::Backspace => {
            let back = if col > 0 { col - 1 } else { col };
            state.virtual_display.set(back, row, Layer { brush: ' ', brush_color: color, changed: true });
            state.pos = (back, row);
        },
        _ => {},
    }
}

} // verus!
