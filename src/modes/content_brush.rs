use vstd::prelude::*;

use crate::canvas::{grid_height, in_bounds, well_formed_grid, write_cell, Grid, Layer};
use crate::color::Color;
use crate::event::{primary_click, primary_click_of, Event};
use crate::luma::{lemma_luma_position, luma_glyph, luma_index, luma_position, luma_ramp, LUMA_MAX};
use crate::state::{same_but_canvas, State};

verus! {

/// Ramp position used for smoothing: a glyph outside the ramp counts as the
/// middle value 50, so that it does not pull the average toward blank.
pub open spec fn rank_or_mid(c: char) -> int {
    match luma_position(c) {
        Some(i) => i as int,
        None => 50,
    }
}

/// First index of the 3-wide window around `v`, clipped at 0.
pub open spec fn window_start(v: int) -> int {
    if v > 0 {
        v - 1
    } else {
        v
    }
}

/// One past the last index of the 3-wide window around `v`, clipped at `limit`.
pub open spec fn window_end(v: int, limit: int) -> int {
    if v + 1 < limit {
        v + 2
    } else {
        v + 1
    }
}

/// Sum of the smoothing ranks of column `c`, rows `lo` up to `hi` (exclusive).
pub open spec fn column_sum(cells: Grid, c: int, lo: int, hi: int) -> int
    decreases hi - lo,
{
    if hi <= lo {
        0
    } else {
        column_sum(cells, c, lo, hi - 1) + rank_or_mid(cells[c][hi - 1].brush)
    }
}

/// Sum of the smoothing ranks of the block of columns `c_lo..c_hi` and rows `r_lo..r_hi`.
pub open spec fn block_sum(cells: Grid, c_lo: int, c_hi: int, r_lo: int, r_hi: int) -> int
    decreases c_hi - c_lo,
{
    if c_hi <= c_lo {
        0
    } else {
        block_sum(cells, c_lo, c_hi - 1, r_lo, r_hi) + column_sum(cells, c_hi - 1, r_lo, r_hi)
    }
}

/// The integer average of the smoothing ranks over the clipped 3×3 neighborhood of `(x, y)`.
pub open spec fn smoothed_index(cells: Grid, x: int, y: int) -> int {
    let c_lo = window_start(x);
    let c_hi = window_end(x, cells.len() as int);
    let r_lo = window_start(y);
    let r_hi = window_end(y, grid_height(cells));
    block_sum(cells, c_lo, c_hi, r_lo, r_hi) / ((c_hi - c_lo) * (r_hi - r_lo))
}

/// The grid after smoothing the cell at `(x, y)`: only that cell is written,
/// with the ramp glyph at the neighborhood average, in `color`.
pub open spec fn smoothed(cells: Grid, x: int, y: int, color: Color) -> Grid {
    write_cell(cells, x, y, luma_ramp()[smoothed_index(cells, x, y)], color)
}

/// What the smoothing tool does with `e`: a primary click smooths the cell under it.
pub open spec fn content_brush_step(s: State, e: Event, t: State) -> bool {
    &&& same_but_canvas(s, t)
    &&& t.virtual_display@ == match primary_click_of(e) {
        Some(p) => smoothed(s.virtual_display@, p.0 as int, p.1 as int, s.color),
        None => s.virtual_display@,
    }
}

proof fn lemma_column_sum_bounds(cells: Grid, c: int, lo: int, hi: int)
    requires
        lo <= hi,
    ensures
        0 <= column_sum(cells, c, lo, hi) <= LUMA_MAX * (hi - lo),
    decreases hi - lo,
{
    if lo < hi {
        lemma_column_sum_bounds(cells, c, lo, hi - 1);
        lemma_luma_position(cells[c][hi - 1].brush);
    }
}

proof fn lemma_block_sum_bounds(cells: Grid, c_lo: int, c_hi: int, r_lo: int, r_hi: int)
    requires
        c_lo <= c_hi,
        r_lo <= r_hi,
    ensures
        0 <= block_sum(cells, c_lo, c_hi, r_lo, r_hi) <= LUMA_MAX * ((c_hi - c_lo) * (r_hi - r_lo)),
    decreases c_hi - c_lo,
{
    if c_lo < c_hi {
        lemma_block_sum_bounds(cells, c_lo, c_hi - 1, r_lo, r_hi);
        lemma_column_sum_bounds(cells, c_hi - 1, r_lo, r_hi);
        assert((c_hi - c_lo) * (r_hi - r_lo) == (c_hi - 1 - c_lo) * (r_hi - r_lo) + (r_hi - r_lo))
            by (nonlinear_arith);
    }
}

proof fn lemma_column_sum_uniform(cells: Grid, c: int, lo: int, hi: int, g: char)
    requires
        lo <= hi,
        forall|r: int| lo <= r < hi ==> (#[trigger] cells[c][r]).brush == g,
    ensures
        column_sum(cells, c, lo, hi) == rank_or_mid(g) * (hi - lo),
    decreases hi - lo,
{
    let k = rank_or_mid(g);
    if lo < hi {
        lemma_column_sum_uniform(cells, c, lo, hi - 1, g);
        assert(cells[c][hi - 1].brush == g);
        assert(k * (hi - lo) == k * (hi - 1 - lo) + k) by (nonlinear_arith);
        assert(column_sum(cells, c, lo, hi) == column_sum(cells, c, lo, hi - 1) + k);
    } else {
        assert(k * (hi - lo) == 0) by (nonlinear_arith)
            requires
                hi == lo,
        ;
    }
}

proof fn lemma_block_sum_uniform(cells: Grid, c_lo: int, c_hi: int, r_lo: int, r_hi: int, g: char)
    requires
        c_lo <= c_hi,
        r_lo <= r_hi,
        forall|c: int, r: int| c_lo <= c < c_hi && r_lo <= r < r_hi ==> (#[trigger] cells[c][r]).brush == g,
    ensures
        block_sum(cells, c_lo, c_hi, r_lo, r_hi) == rank_or_mid(g) * ((c_hi - c_lo) * (r_hi - r_lo)),
    decreases c_hi - c_lo,
{
    if c_lo < c_hi {
        lemma_block_sum_uniform(cells, c_lo, c_hi - 1, r_lo, r_hi, g);
        assert forall|r: int| r_lo <= r < r_hi implies (#[trigger] cells[c_hi - 1][r]).brush == g by {
            assert(cells[c_hi - 1][r].brush == g);
        }
        lemma_column_sum_uniform(cells, c_hi - 1, r_lo, r_hi, g);
        let k = rank_or_mid(g);
        let h = r_hi - r_lo;
        assert(k * ((c_hi - c_lo) * h) == k * ((c_hi - 1 - c_lo) * h) + k * h) by (nonlinear_arith);
    } else {
        let k = rank_or_mid(g);
        assert(k * ((c_hi - c_lo) * (r_hi - r_lo)) == 0) by (nonlinear_arith)
            requires
                c_hi == c_lo,
        ;
    }
}

/// Smoothing a cell whose whole clipped neighborhood holds one ramp glyph
/// leaves that glyph in place.
pub proof fn lemma_smooth_uniform(cells: Grid, x: int, y: int, g: char, color: Color)
    requires
        well_formed_grid(cells),
        in_bounds(cells, x, y),
        luma_position(g) is Some,
        forall|c: int, r: int|
            window_start(x) <= c < window_end(x, cells.len() as int) && window_start(y) <= r < window_end(
                y,
                grid_height(cells),
            ) ==> (#[trigger] cells[c][r]).brush == g,
    ensures
        smoothed(cells, x, y, color)[x][y].brush == g,
{
    let c_lo = window_start(x);
    let c_hi = window_end(x, cells.len() as int);
    let r_lo = window_start(y);
    let r_hi = window_end(y, grid_height(cells));
    lemma_block_sum_uniform(cells, c_lo, c_hi, r_lo, r_hi, g);
    let k = rank_or_mid(g);
    let n = (c_hi - c_lo) * (r_hi - r_lo);
    assert(n > 0) by (nonlinear_arith)
        requires
            c_hi - c_lo > 0,
            r_hi - r_lo > 0,
            n == (c_hi - c_lo) * (r_hi - r_lo),
    ;
    assert((k * n) / n == k) by (nonlinear_arith)
        requires
            n > 0,
    ;
    assert(smoothed_index(cells, x, y) == k);
    lemma_luma_position(g);
}

/// Smooths the cell at `(x, y)`: writes the ramp glyph at the average
/// smoothing rank of its clipped 3×3 neighborhood, in the active color.
fn smooth_cell(state: &mut State, x: u16, y: u16)
    requires
        old(state).wf(),
    ensures
        final(state).wf(),
        same_but_canvas(*old(state), *final(state)),
        final(state).virtual_display@ == smoothed(old(state).virtual_display@, x as int, y as int, old(state).color),
{
    let ghost cells = state.virtual_display@;
    let mx = state.virtual_display.width();
    let my = state.virtual_display.height();
    if x >= mx || y >= my {
        return ;
    }
    let c_lo: u16 = if x > 0 { x - 1 } else { x };
    let c_hi: u16 = if x + 1 < mx { x + 2 } else { x + 1 };
    let r_lo: u16 = if y > 0 { y - 1 } else { y };
    let r_hi: u16 = if y + 1 < my { y + 2 } else { y + 1 };
    let mut sum: usize = 0;
    let mut n: u16 = c_lo;
    while n < c_hi
        invariant
            well_formed_grid(cells),
            cells == state.virtual_display@,
            state.wf(),
            c_lo <= n <= c_hi <= cells.len(),
            r_lo < r_hi <= grid_height(cells),
            c_hi - c_lo <= 3,
            r_hi - r_lo <= 3,
            sum == block_sum(cells, c_lo as int, n as int, r_lo as int, r_hi as int),
            0 <= sum <= LUMA_MAX * ((n - c_lo) * (r_hi - r_lo)),
        decreases c_hi - n,
    {
        let mut i: u16 = r_lo;
        let ghost before = sum;
        while i < r_hi
            invariant
                well_formed_grid(cells),
                cells == state.virtual_display@,
                state.wf(),
                c_lo <= n < c_hi <= cells.len(),
                r_lo <= i <= r_hi <= grid_height(cells),
                c_hi - c_lo <= 3,
                r_hi - r_lo <= 3,
                before == block_sum(cells, c_lo as int, n as int, r_lo as int, r_hi as int),
                0 <= before <= LUMA_MAX * ((n - c_lo) * (r_hi - r_lo)),
                sum == before + column_sum(cells, n as int, r_lo as int, i as int),
                0 <= column_sum(cells, n as int, r_lo as int, i as int) <= LUMA_MAX * (i - r_lo),
            decreases r_hi - i,
        {
            let glyph = match state.virtual_display.get(n, i) {
                Some(l) => l.brush,
                None => ' ',
            };
            proof {
                assert(cells[n as int].len() == cells[0].len());
                lemma_luma_position(glyph);
                assert((n - c_lo) * (r_hi - r_lo) <= 6) by (nonlinear_arith)
                    requires
                        0 <= n - c_lo < 3,
                        0 <= r_hi - r_lo <= 3,
                        c_hi - c_lo <= 3,
                        n < c_hi,
                ;
            }
            let rank: usize = match luma_index(glyph) {
                Some(k) => k,
                None => 50,
            };
            sum = sum + rank;
            i = i + 1;
        }
        proof {
            assert((n + 1 - c_lo) * (r_hi - r_lo) == (n - c_lo) * (r_hi - r_lo) + (r_hi - r_lo)) by (nonlinear_arith);
        }
        n = n + 1;
    }
    assert(((c_hi - c_lo) as usize) * ((r_hi - r_lo) as usize) <= 9) by (nonlinear_arith)
        requires
            0 <= c_hi - c_lo <= 3,
            0 <= r_hi - r_lo <= 3,
    ;
    let count: usize = ((c_hi - c_lo) as usize) * ((r_hi - r_lo) as usize);
    proof {
        assert(count > 0) by (nonlinear_arith)
            requires
                c_hi - c_lo > 0,
                r_hi - r_lo > 0,
                count == (c_hi - c_lo) * (r_hi - r_lo),
        ;
        assert(sum / count <= LUMA_MAX) by (nonlinear_arith)
            requires
                count > 0,
                0 <= sum <= LUMA_MAX * count,
        ;
    }
    let average = sum / count;
    let color = state.color;
    state.virtual_display.set(x, y, Layer { brush: luma_glyph(average), brush_color: color, changed: true });
}

/// The smoothing tool: a primary click smooths the cell under it.
pub fn content_brush(event: &Event, state: &mut State)
    requires
        old(state).wf(),
    ensures
        final(state).wf(),
        content_brush_step(*old(state), *event, *final(state)),
{
    if let Some((x, y)) = primary_click(event) {
        smooth_cell(state, x, y);
    }
}

} // verus!
