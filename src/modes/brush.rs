use vstd::prelude::*;

use crate::canvas::{grid_height, in_bounds, Grid, Layer};
use crate::color::Color;
use crate::event::{handle_keychar, handle_mouse, primary_click, primary_click_of, Event, KeyCode, KeyEvent, MouseEventKind};
use crate::luma::{luma_glyph, luma_index, luma_position, luma_ramp, LUMA_MAX};
use crate::modes::{BrushData, BrushMode, Mode};
use crate::state::{same_but_canvas, same_but_canvas_and_mode, State};

verus! {

/// Falloff weight of the offset `(dx, dy)` from the center of a brush of
/// radius `size`: 0 at the center, above 100 outside the footprint.
pub open spec fn brush_weight(dx: int, dy: int, size: int) -> int {
    dx * dx * 100 / size / 2 + dy * dy * 100 / size
}

/// The offset lies in the square of radius `size` and its weight is at most 100.
pub open spec fn in_footprint(dx: int, dy: int, size: int) -> bool {
    &&& -size <= dx <= size
    &&& -size <= dy <= size
    &&& brush_weight(dx, dy, size) <= 100
}

/// The cell is inside the grid and not on its outermost rows or columns.
pub open spec fn interior(cells: Grid, col: int, row: int) -> bool {
    0 < col < cells.len() - 1 && 0 < row < grid_height(cells) - 1
}

/// The ramp position of a glyph, 0 for a glyph outside the ramp.
pub open spec fn rank_or_zero(c: char) -> int {
    match luma_position(c) {
        Some(i) => i as int,
        None => 0,
    }
}

/// The ramp position after blending `intensity` into position `old`.
pub open spec fn blend_index(old: int, intensity: int, mode: BrushMode) -> int {
    match mode {
        BrushMode::Add => if old + intensity < LUMA_MAX {
            old + intensity
        } else {
            LUMA_MAX as int
        },
        BrushMode::Subtract => if old >= intensity {
            old - intensity
        } else {
            0
        },
    }
}

/// The cell at `(col, row)` after one brush pass centered at `(cx, cy)`.
pub open spec fn brushed_cell(
    cells: Grid,
    cx: int,
    cy: int,
    size: int,
    mode: BrushMode,
    color: Color,
    col: int,
    row: int,
) -> Layer {
    if interior(cells, col, row) && in_footprint(col - cx, row - cy, size) {
        let intensity = 100 - brush_weight(col - cx, row - cy, size);
        Layer {
            brush: luma_ramp()[blend_index(rank_or_zero(cells[col][row].brush), intensity, mode)],
            brush_color: color,
            changed: true,
        }
    } else {
        cells[col][row]
    }
}

/// The grid after one brush pass centered at `(cx, cy)`.
pub open spec fn brushed(cells: Grid, cx: int, cy: int, size: int, mode: BrushMode, color: Color) -> Grid {
    Seq::new(
        cells.len(),
        |c: int| Seq::new(cells[c].len(), |r: int| brushed_cell(cells, cx, cy, size, mode, color, c, r)),
    )
}

/// One size step up, up to 255.
pub open spec fn grown(d: BrushData) -> BrushData {
    BrushData { size: if d.size < 255 { (d.size + 1) as u8 } else { 255 }, ..d }
}

/// One size step down, never below 1.
pub open spec fn shrunk(d: BrushData) -> BrushData {
    BrushData { size: if d.size > 1 { (d.size - 1) as u8 } else { 1 }, ..d }
}

/// The brush parameters after `e`: `a` adds, `f` subtracts, `s` and scrolling
/// up grow the brush, `d` and scrolling down shrink it.
pub open spec fn brush_params(d: BrushData, e: Event) -> BrushData {
    match e {
        Event::Key(KeyEvent { code: KeyCode::Char(c) }) => if c == 'a' {
            BrushData { mode: BrushMode::Add, ..d }
        } else if c == 'f' {
            BrushData { mode: BrushMode::Subtract, ..d }
        } else if c == 's' {
            grown(d)
        } else if c == 'd' {
            shrunk(d)
        } else {
            d
        },
        Event::Mouse(m) => match m.kind {
            MouseEventKind::ScrollUp => grown(d),
            MouseEventKind::ScrollDown => shrunk(d),
            _ => d,
        },
        _ => d,
    }
}

/// What the brush tool does with `e`: it updates its parameters, then a
/// primary click paints one pass with them in the active color.
pub open spec fn brush_step(s: State, e: Event, t: State) -> bool {
    match s.mode {
        Mode::Brush(d) => {
            let d2 = brush_params(d, e);
            &&& same_but_canvas_and_mode(s, t)
            &&& t.mode == Mode::Brush(d2)
            &&& t.virtual_display@ == match primary_click_of(e) {
                Some(p) => brushed(s.virtual_display@, p.0 as int, p.1 as int, d2.size as int, d2.mode, s.color),
                None => s.virtual_display@,
            }
        },
        _ => false,
    }
}

proof fn lemma_weight_bounds(x: i64, ax: u128, r: i64)
    requires
        1 <= r <= i32::MAX,
        -r <= x <= r,
        ax == x || ax == -x,
    ensures
        ax * ax == x * x,
        ax * ax <= 0x4000_0000_0000_0000,
{
    assert(ax * ax == x * x) by (nonlinear_arith)
        requires
            ax == x || ax == -x,
    ;
    assert(ax * ax <= r * r) by (nonlinear_arith)
        requires
            0 <= ax <= r,
    ;
    assert(r * r <= 0x8000_0000 * 0x8000_0000) by (nonlinear_arith)
        requires
            0 < r <= 0x8000_0000,
    ;
}

/// Paints one pass of the luminance brush of radius `radius` centered at
/// `(col, row)`, in the active color; only interior cells of the footprint change.
pub fn base_brush(state: &mut State, col: u16, row: u16, radius: i32, mode: BrushMode)
    requires
        old(state).wf(),
        radius >= 1,
    ensures
        final(state).wf(),
        same_but_canvas(*old(state), *final(state)),
        final(state).virtual_display@ == brushed(
            old(state).virtual_display@,
            col as int,
            row as int,
            radius as int,
            mode,
            old(state).color,
        ),
{
    let ghost cells = state.virtual_display@;
    let ghost size = radius as int;
    let mx = state.virtual_display.width() as i64;
    let my = state.virtual_display.height() as i64;
    let r = radius as i64;
    let cx = col as i64;
    let cy = row as i64;
    let mut x: i64 = -r;
    while x <= r
        invariant
            1 <= r == size <= i32::MAX,
            -r <= x <= r + 1,
            cx == col,
            cy == row,
            mx == cells.len(),
            my == grid_height(cells),
            cells == old(state).virtual_display@,
            state.wf(),
            same_but_canvas(*old(state), *state),
            state.virtual_display@.len() == cells.len(),
            forall|c: int| 0 <= c < cells.len() ==> (#[trigger] state.virtual_display@[c]).len() == cells[c].len(),
            forall|c: int, w: int|
                in_bounds(cells, c, w) ==> #[trigger] state.virtual_display@[c][w] == (if c - cx < x {
                    brushed_cell(cells, cx as int, cy as int, size, mode, old(state).color, c, w)
                } else {
                    cells[c][w]
                }),
        decreases r + 1 - x,
    {
        let mut y: i64 = -r;
        while y <= r
            invariant
                1 <= r == size <= i32::MAX,
                -r <= x <= r,
                -r <= y <= r + 1,
                cx == col,
                cy == row,
                mx == cells.len(),
                my == grid_height(cells),
                cells == old(state).virtual_display@,
                state.wf(),
                same_but_canvas(*old(state), *state),
                state.virtual_display@.len() == cells.len(),
                forall|c: int| 0 <= c < cells.len() ==> (#[trigger] state.virtual_display@[c]).len() == cells[c].len(),
                forall|c: int, w: int|
                    in_bounds(cells, c, w) ==> #[trigger] state.virtual_display@[c][w] == (if c - cx < x || (c - cx
                        == x && w - cy < y) {
                        brushed_cell(cells, cx as int, cy as int, size, mode, old(state).color, c, w)
                    } else {
                        cells[c][w]
                    }),
            decreases r + 1 - y,
        {
            let ax: u128 = if x < 0 {
                (-x) as u128
            } else {
                x as u128
            };
            let ay: u128 = if y < 0 {
                (-y) as u128
            } else {
                y as u128
            };
            proof {
                lemma_weight_bounds(x, ax, r);
                lemma_weight_bounds(y, ay, r);
            }
            let weight: u128 = ax * ax * 100 / (r as u128) / 2 + ay * ay * 100 / (r as u128);
            assert(weight == brush_weight(x as int, y as int, size));
            let xc = x + cx;
            let yr = y + cy;
            if weight <= 100 && xc > 0 && xc < mx - 1 && yr > 0 && yr < my - 1 {
                let ghost before = state.virtual_display@;
                let glyph = match state.virtual_display.get(xc as u16, yr as u16) {
                    Some(l) => l.brush,
                    None => ' ',
                };
                assert(glyph == cells[xc as int][yr as int].brush);
                let old_index: usize = match luma_index(glyph) {
                    Some(i) => i,
                    None => 0,
                };
                proof {
                    crate::luma::lemma_luma_position(glyph);
                }
                let intensity: usize = (100 - weight) as usize;
                let new_index: usize = match mode {
                    BrushMode::Add => if old_index + intensity < LUMA_MAX {
                        old_index + intensity
                    } else {
                        LUMA_MAX
                    },
                    BrushMode::Subtract => if old_index >= intensity {
                        old_index - intensity
                    } else {
                        0
                    },
                };
                let color = state.color;
                state.virtual_display.set(
                    xc as u16,
                    yr as u16,
                    Layer { brush: luma_glyph(new_index), brush_color: color, changed: true },
                );
                assert(state.virtual_display@[xc as int][yr as int] == brushed_cell(
                    cells,
                    cx as int,
                    cy as int,
                    size,
                    mode,
                    old(state).color,
                    xc as int,
                    yr as int,
                ));
            }
            y = y + 1;
        }
        x = x + 1;
    }
    let ghost target = brushed(cells, col as int, row as int, size, mode, old(state).color);
    assert forall|c: int| 0 <= c < cells.len() implies #[trigger] state.virtual_display@[c] =~= target[c] by {
        assert forall|w: int| 0 <= w < cells[c].len() implies state.virtual_display@[c][w] == target[c][w] by {
            assert(cells[c].len() == cells[0].len());
            assert(in_bounds(cells, c, w));
        }
    }
    assert(state.virtual_display@ =~= target);
}

/// The brush tool: parameter keys and scrolling, then a pass under a primary click.
pub fn brush(event: &Event, state: &mut State)
    requires
        old(state).wf(),
        old(state).mode is Brush,
    ensures
        final(state).wf(),
        brush_step(*old(state), *event, *final(state)),
{
    let mut data = match state.mode {
        Mode::Brush(d) => d,
        _ => return ,
    };
    match handle_keychar(event) {
        Some('a') => data.mode = BrushMode::Add,
        Some('f') => data.mode = BrushMode::Subtract,
        Some('s') => data.size = if data.size < 255 { data.size + 1 } else { 255 },
        Some('d') => data.size = if data.size > 1 { data.size - 1 } else { 1 },
        _ => {},
    }
    match handle_mouse(event) {
        Some(m) => match m.kind {
            MouseEventKind::ScrollUp => data.size = if data.size < 255 { data.size + 1 } else { 255 },
            MouseEventKind::ScrollDown => data.size = if data.size > 1 { data.size - 1 } else { 1 },
            _ => {},
        },
        None => {},
    }
    state.mode = Mode::Brush(data);
    if let Some((col, row)) = primary_click(event) {
        base_brush(state, col, row, data.size as i32, data.mode);
    }
}

/// A blend never leaves the ramp: from a position on the ramp, with an
/// intensity between 0 and 100, the result is again a position on the ramp.
pub proof fn lemma_blend_in_ramp(old: int, intensity: int, mode: BrushMode)
    requires
        0 <= old <= LUMA_MAX,
        0 <= intensity <= 100,
    ensures
        0 <= blend_index(old, intensity, mode) <= LUMA_MAX,
{
}

/// The ramp position of any glyph lies on the ramp.
pub proof fn lemma_rank_in_ramp(c: char)
    ensures
        0 <= rank_or_zero(c) <= LUMA_MAX,
{
    crate::luma::lemma_luma_position(c);
}

/// An additive pass turns the interior cell under the pointer into the densest
/// glyph, whatever it held and whatever the size.
pub proof fn lemma_add_at_center(cells: Grid, cx: int, cy: int, size: int, color: Color)
    requires
        crate::canvas::well_formed_grid(cells),
        interior(cells, cx, cy),
        size >= 1,
    ensures
        brushed(cells, cx, cy, size, BrushMode::Add, color)[cx][cy] == (Layer {
            brush: luma_ramp()[LUMA_MAX as int],
            brush_color: color,
            changed: true,
        }),
{
    lemma_rank_in_ramp(cells[cx][cy].brush);
    assert(brush_weight(0, 0, size) == 0);
}

/// A subtractive pass turns the interior cell under the pointer into the blank
/// glyph at ramp position 0, even from the densest glyph, and never below it.
pub proof fn lemma_subtract_at_center(cells: Grid, cx: int, cy: int, size: int, color: Color)
    requires
        crate::canvas::well_formed_grid(cells),
        interior(cells, cx, cy),
        size >= 1,
    ensures
        brushed(cells, cx, cy, size, BrushMode::Subtract, color)[cx][cy] == (Layer {
            brush: luma_ramp()[0],
            brush_color: color,
            changed: true,
        }),
{
    lemma_rank_in_ramp(cells[cx][cy].brush);
    assert(brush_weight(0, 0, size) == 0);
}

} // verus!
