use vstd::prelude::*;

use crate::color::Color;

verus! {

/// One cell of the grid: a glyph, its color, and whether it changed since the last drain.
#[derive(Clone, Copy, Debug, PartialEq, Eq, Structural)]
pub struct Layer {
    pub brush: char,
    pub brush_color: Color,
    pub changed: bool,
}

/// A glyph with its color, without change tracking.
#[derive(Clone, Copy, Debug, PartialEq, Eq, Structural)]
pub struct TextLayer {
    pub brush: char,
    pub color: Color,
}

/// A changed cell as the drain reports it: column, row, glyph, color.
pub type Change = (u16, u16, char, Color);

/// The grid, column by column: `vd[col][row]`.
pub struct Canvas {
    pub vd: Vec<Vec<Layer>>,
    pub need_repaint: bool,
}

/// The grid as a sequence of columns.
pub type Grid = Seq<Seq<Layer>>;

impl View for Canvas {
    type V = Grid;

    open spec fn view(&self) -> Grid {
        self.vd@.map_values(|column: Vec<Layer>| column@)
    }
}

/// The content of a cell that was never drawn on.
pub open spec fn blank_layer(changed: bool) -> Layer {
    Layer { brush: ' ', brush_color: Color::White, changed }
}

/// Number of rows of a grid.
pub open spec fn grid_height(cells: Grid) -> int {
    if cells.len() > 0 {
        cells[0].len() as int
    } else {
        0
    }
}

/// A non-empty rectangle of at most 65535 columns and rows, so that every
/// position fits in a `u16`.
pub open spec fn well_formed_grid(cells: Grid) -> bool {
    &&& 0 < cells.len() <= u16::MAX
    &&& 0 < cells[0].len() <= u16::MAX
    &&& forall|c: int| 0 <= c < cells.len() ==> #[trigger] cells[c].len() == cells[0].len()
}

/// Whether `(col, row)` is a cell of the grid.
pub open spec fn in_bounds(cells: Grid, col: int, row: int) -> bool {
    0 <= col < cells.len() && 0 <= row < grid_height(cells)
}

/// The grid after writing `glyph` in `color` at `(col, row)`: the cell takes
/// the content and is marked changed; outside the grid nothing happens.
pub open spec fn write_cell(cells: Grid, col: int, row: int, glyph: char, color: Color) -> Grid {
    if in_bounds(cells, col, row) {
        cells.update(
            col,
            cells[col].update(row, Layer { brush: glyph, brush_color: color, changed: true }),
        )
    } else {
        cells
    }
}

/// Glyph and color at `(col, row)`, or `None` outside the grid.
pub open spec fn read_cell(cells: Grid, col: int, row: int) -> Option<(char, Color)> {
    if in_bounds(cells, col, row) {
        Some((cells[col][row].brush, cells[col][row].brush_color))
    } else {
        None
    }
}

/// The grid with every cell blank and marked changed.
pub open spec fn cleared(cells: Grid) -> Grid {
    cells.map_values(|column: Seq<Layer>| column.map_values(|l: Layer| blank_layer(true)))
}

/// The grid with every change flag cleared and the content kept.
pub open spec fn flushed(cells: Grid) -> Grid {
    cells.map_values(
        |column: Seq<Layer>| column.map_values(|l: Layer| Layer { changed: false, ..l }),
    )
}

/// `e` names a changed cell of `cells` with that cell's glyph and color.
pub open spec fn reports_cell(cells: Grid, e: Change) -> bool {
    &&& in_bounds(cells, e.0 as int, e.1 as int)
    &&& cells[e.0 as int][e.1 as int].changed
    &&& cells[e.0 as int][e.1 as int].brush == e.2
    &&& cells[e.0 as int][e.1 as int].brush_color == e.3
}

/// Column-major scan order of two positions.
pub open spec fn scan_before(a: Change, b: Change) -> bool {
    a.0 < b.0 || (a.0 == b.0 && a.1 < b.1)
}

/// Some entry of `out` is at `(col, row)`.
pub open spec fn lists_cell(out: Seq<Change>, col: int, row: int) -> bool {
    exists|i: int| 0 <= i < out.len() && (#[trigger] out[i]).0 == col && out[i].1 == row
}

/// `out` lists each changed cell of `cells` once, in column-major order, and nothing else.
pub open spec fn drain_report(cells: Grid, out: Seq<Change>) -> bool {
    &&& forall|i: int| 0 <= i < out.len() ==> reports_cell(cells, #[trigger] out[i])
    &&& forall|i: int, j: int| 0 <= i < j < out.len() ==> scan_before(#[trigger] out[i], #[trigger] out[j])
    &&& forall|c: int, r: int|
        in_bounds(cells, c, r) && (#[trigger] cells[c][r]).changed ==> lists_cell(out, c, r)
}

/// Some cell of the grid is marked changed.
pub open spec fn has_changes(cells: Grid) -> bool {
    exists|c: int, r: int| in_bounds(cells, c, r) && (#[trigger] cells[c][r]).changed
}

impl Canvas {
    /// The grid is a well-formed rectangle, and `need_repaint` tells whether
    /// some cell is marked changed.
    pub open spec fn wf(&self) -> bool {
        &&& well_formed_grid(self@)
        &&& self.need_repaint == has_changes(self@)
    }

    /// A `width` × `height` grid of blank, unchanged cells.
    pub fn new(width: u16, height: u16) -> (r: Canvas)
        requires
            width > 0,
            height > 0,
        ensures
            r.wf(),
            r@.len() == width,
            grid_height(r@) == height,
            forall|c: int, w: int| in_bounds(r@, c, w) ==> #[trigger] r@[c][w] == blank_layer(false),
    {
        let width = width as usize;
        let height = height as usize;
        let mut virtual_display: Vec<Vec<Layer>> = Vec::with_capacity(width);
        let mut c: usize = 0;
        while c < width
            invariant
                c <= width <= u16::MAX,
                0 < height <= u16::MAX,
                virtual_display.len() == c,
                forall|k: int| 0 <= k < c ==> (#[trigger] virtual_display@[k])@.len() == height,
                forall|k: int, w: int|
                    0 <= k < c && 0 <= w < height ==> #[trigger] virtual_display@[k]@[w] == blank_layer(false),
            decreases width - c,
        {
            let mut nested: Vec<Layer> = Vec::with_capacity(height);
            let mut w: usize = 0;
            while w < height
                invariant
                    w <= height,
                    nested.len() == w,
                    forall|k: int| 0 <= k < w ==> #[trigger] nested@[k] == blank_layer(false),
                decreases height - w,
            {
                nested.push(Layer { brush: ' ', brush_color: Color::White, changed: false });
                w = w + 1;
            }
            virtual_display.push(nested);
            c = c + 1;
        }
        let r = Canvas { vd: virtual_display, need_repaint: false };
        assert forall|k: int| 0 <= k < r@.len() implies #[trigger] r@[k].len() == r@[0].len() by {
            assert(r@[k] == r.vd@[k]@);
        }
        assert(!has_changes(r@)) by {
            assert forall|k: int, w: int| in_bounds(r@, k, w) implies !(#[trigger] r@[k][w]).changed by {
                assert(r@[k] == r.vd@[k]@);
            }
        }
        r
    }

    /// Number of columns.
    pub fn width(&self) -> (r: u16)
        requires
            self.wf(),
        ensures
            r == self@.len(),
    {
        self.vd.len() as u16
    }

    /// Number of rows.
    pub fn height(&self) -> (r: u16)
        requires
            self.wf(),
        ensures
            r == grid_height(self@),
    {
        assert(self@[0] == self.vd@[0]@);
        self.vd[0].len() as u16
    }

    /// Writes the glyph and color of `layer` at `(col, row)` and marks the cell
    /// changed; outside the grid it does nothing.
    pub fn set(&mut self, col: u16, row: u16, layer: Layer)
        requires
            old(self).wf(),
        ensures
            final(self).wf(),
            final(self)@ == write_cell(old(self)@, col as int, row as int, layer.brush, layer.brush_color),
    {
        let c = col as usize;
        let r = row as usize;
        proof {
            if c < self@.len() {
                assert(self@[c as int] == self.vd@[c as int]@);
                assert(self@[c as int].len() == self@[0].len());
            }
        }
        if c < self.vd.len() && r < self.vd[c].len() {
            self.vd[c][r] = Layer { brush: layer.brush, brush_color: layer.brush_color, changed: true };
            self.need_repaint = true;
            proof {
                let expected = write_cell(old(self)@, col as int, row as int, layer.brush, layer.brush_color);
                assert(self@ =~= expected);
                assert(self@[col as int][row as int].changed);
            }
        }
    }

    /// The cell at `(col, row)`, or `None` outside the grid.
    pub fn get(&self, col: u16, row: u16) -> (r: Option<&Layer>)
        requires
            self.wf(),
        ensures
            r matches Some(l) ==> read_cell(self@, col as int, row as int) == Some((l.brush, l.brush_color))
                && *l == self@[col as int][row as int],
            r is None ==> read_cell(self@, col as int, row as int) is None,
    {
        let c = col as usize;
        let r = row as usize;
        proof {
            if c < self@.len() {
                assert(self@[c as int] == self.vd@[c as int]@);
                assert(self@[c as int].len() == self@[0].len());
            }
        }
        if c < self.vd.len() && r < self.vd[c].len() {
            Some(&self.vd[c][r])
        } else {
            None
        }
    }

    /// Makes every cell blank and marks it changed, so that a repaint erases the grid.
    pub fn clear(&mut self)
        requires
            old(self).wf(),
        ensures
            final(self).wf(),
            final(self)@ == cleared(old(self)@),
    {
        let ghost old_cells = self@;
        let width = self.vd.len();
        assert forall|k: int| 0 <= k < width implies (#[trigger] self.vd@[k])@ == old_cells[k] by {
            assert(old_cells[k] == self.vd@[k]@);
        }
        let mut c: usize = 0;
        while c < width
            invariant
                c <= width == self.vd.len() == old_cells.len(),
                well_formed_grid(old_cells),
                forall|k: int| 0 <= k < width ==> (#[trigger] self.vd@[k])@.len() == old_cells[0].len(),
                forall|k: int, w: int| 0 <= k < c && 0 <= w < old_cells[0].len()
                    ==> #[trigger] self.vd@[k]@[w] == blank_layer(true),
                forall|k: int| c <= k < width ==> (#[trigger] self.vd@[k])@ == old_cells[k],
            decreases width - c,
        {
            let height = self.vd[c].len();
            let mut w: usize = 0;
            while w < height
                invariant
                    c < width == self.vd.len() == old_cells.len(),
                    height == old_cells[0].len(),
                    w <= height,
                    well_formed_grid(old_cells),
                    forall|k: int| 0 <= k < width ==> (#[trigger] self.vd@[k])@.len() == old_cells[0].len(),
                    forall|k: int, v: int| 0 <= k < c && 0 <= v < old_cells[0].len()
                        ==> #[trigger] self.vd@[k]@[v] == blank_layer(true),
                    forall|k: int| c < k < width ==> (#[trigger] self.vd@[k])@ == old_cells[k],
                    forall|v: int| 0 <= v < w ==> #[trigger] self.vd@[c as int]@[v] == blank_layer(true),
                decreases height - w,
            {
                self.vd[c][w] = Layer { brush: ' ', brush_color: Color::White, changed: true };
                w = w + 1;
            }
            c = c + 1;
        }
        self.need_repaint = true;
        assert forall|k: int| 0 <= k < self@.len() implies #[trigger] self@[k] =~= cleared(old_cells)[k] by {
            assert(self@[k] == self.vd@[k]@);
        }
        assert(self@ =~= cleared(old_cells));
        assert(self@[0][0].changed);
    }

    /// Reports every changed cell once, in column-major order, and clears the
    /// change flags; the content of the grid stays as it was.
    pub fn drain_changed(&mut self) -> (out: Vec<Change>)
        requires
            old(self).wf(),
        ensures
            final(self).wf(),
            final(self)@ == flushed(old(self)@),
            !final(self).need_repaint,
            drain_report(old(self)@, out@),
    {
        let ghost old_cells = self@;
        let width = self.vd.len();
        assert forall|k: int| 0 <= k < width implies (#[trigger] self.vd@[k])@ == old_cells[k] by {
            assert(old_cells[k] == self.vd@[k]@);
        }
        let mut out: Vec<Change> = Vec::new();
        let mut c: usize = 0;
        while c < width
            invariant
                c <= width == self.vd.len() == old_cells.len(),
                well_formed_grid(old_cells),
                forall|k: int| 0 <= k < width ==> (#[trigger] self.vd@[k])@.len() == old_cells[0].len(),
                forall|k: int| 0 <= k < c ==> (#[trigger] self.vd@[k])@ == flushed(old_cells)[k],
                forall|k: int| c <= k < width ==> (#[trigger] self.vd@[k])@ == old_cells[k],
                forall|i: int| 0 <= i < out.len() ==> reports_cell(old_cells, #[trigger] out@[i]),
                forall|i: int| 0 <= i < out.len() ==> (#[trigger] out@[i]).0 < c,
                forall|i: int, j: int| 0 <= i < j < out.len() ==> scan_before(#[trigger] out@[i], #[trigger] out@[j]),
                forall|k: int, r: int| 0 <= k < c && in_bounds(old_cells, k, r) && (#[trigger] old_cells[k][r]).changed
                    ==> lists_cell(out@, k, r),
            decreases width - c,
        {
            let height = self.vd[c].len();
            let mut w: usize = 0;
            while w < height
                invariant
                    c < width == self.vd.len() == old_cells.len(),
                    height == old_cells[0].len(),
                    w <= height,
                    well_formed_grid(old_cells),
                    forall|k: int| 0 <= k < width ==> (#[trigger] self.vd@[k])@.len() == old_cells[0].len(),
                    forall|k: int| 0 <= k < c ==> (#[trigger] self.vd@[k])@ == flushed(old_cells)[k],
                    forall|k: int| c < k < width ==> (#[trigger] self.vd@[k])@ == old_cells[k],
                    forall|v: int| 0 <= v < w ==> #[trigger] self.vd@[c as int]@[v] == flushed(old_cells)[c as int][v],
                    forall|v: int| w <= v < height ==> #[trigger] self.vd@[c as int]@[v] == old_cells[c as int][v],
                    forall|i: int| 0 <= i < out.len() ==> reports_cell(old_cells, #[trigger] out@[i]),
                    forall|i: int| 0 <= i < out.len() ==> scan_before(#[trigger] out@[i], (c as u16, w as u16, ' ', Color::White)),
                    forall|i: int, j: int| 0 <= i < j < out.len() ==> scan_before(#[trigger] out@[i], #[trigger] out@[j]),
                    forall|k: int, r: int| 0 <= k < c && in_bounds(old_cells, k, r) && (#[trigger] old_cells[k][r]).changed
                        ==> lists_cell(out@, k, r),
                    forall|r: int| 0 <= r < w && (#[trigger] old_cells[c as int][r]).changed
                        ==> lists_cell(out@, c as int, r),
                decreases height - w,
            {
                let cell = self.vd[c][w];
                if cell.changed {
                    let ghost before = out@;
                    out.push((c as u16, w as u16, cell.brush, cell.brush_color));
                    self.vd[c][w] = Layer { brush: cell.brush, brush_color: cell.brush_color, changed: false };
                    proof {
                        assert(out@[before.len() as int] == (c as u16, w as u16, cell.brush, cell.brush_color));
                        assert forall|k: int, r: int| 0 <= k < c && in_bounds(old_cells, k, r) && (#[trigger] old_cells[k][r]).changed
                            implies lists_cell(out@, k, r) by {
                            assert(lists_cell(before, k, r));
                            let i = choose|i: int| 0 <= i < before.len() && (#[trigger] before[i]).0 == k && before[i].1 == r;
                            assert(out@[i] == before[i]);
                        }
                        assert forall|r: int| 0 <= r <= w && (#[trigger] old_cells[c as int][r]).changed
                            implies lists_cell(out@, c as int, r) by {
                            if r < w {
                                assert(lists_cell(before, c as int, r));
                                let i = choose|i: int| 0 <= i < before.len() && (#[trigger] before[i]).0 == c && before[i].1 == r;
                                assert(out@[i] == before[i]);
                            } else {
                                assert(out@[before.len() as int].0 == c);
                            }
                        }
                    }
                } else {
                    self.vd[c][w] = Layer { brush: cell.brush, brush_color: cell.brush_color, changed: false };
                }
                w = w + 1;
            }
            proof {
                assert(self.vd@[c as int]@ =~= flushed(old_cells)[c as int]);
            }
            c = c + 1;
        }
        self.need_repaint = false;
        assert forall|k: int| 0 <= k < self@.len() implies #[trigger] self@[k] == flushed(old_cells)[k] by {
            assert(self@[k] == self.vd@[k]@);
        }
        assert(self@ =~= flushed(old_cells));
        assert(!has_changes(self@));
        out
    }
}

/// Reading a cell right after writing it inside the grid gives back what was written.
pub proof fn lemma_write_then_read(cells: Grid, col: int, row: int, glyph: char, color: Color)
    requires
        well_formed_grid(cells),
        in_bounds(cells, col, row),
    ensures
        read_cell(write_cell(cells, col, row, glyph, color), col, row) == Some((glyph, color)),
{
}

/// Writing outside the grid changes nothing, and reading there gives nothing.
pub proof fn lemma_write_out_of_bounds(cells: Grid, col: int, row: int, glyph: char, color: Color)
    requires
        well_formed_grid(cells),
        !in_bounds(cells, col, row),
    ensures
        write_cell(cells, col, row, glyph, color) == cells,
        read_cell(cells, col, row) is None,
{
}

/// A drain lists each changed cell exactly once.
pub proof fn lemma_drain_lists_once(cells: Grid, out: Seq<Change>, col: int, row: int)
    requires
        well_formed_grid(cells),
        drain_report(cells, out),
        in_bounds(cells, col, row),
        cells[col][row].changed,
    ensures
        exists|i: int| 0 <= i < out.len() && (#[trigger] out[i]).0 == col && out[i].1 == row,
        forall|i: int, j: int|
            0 <= i < out.len() && 0 <= j < out.len() && (#[trigger] out[i]).0 == col && out[i].1 == row
                && (#[trigger] out[j]).0 == col && out[j].1 == row ==> i == j,
{
    assert(cells[col][row].changed);
    assert(lists_cell(out, col, row));
    assert forall|i: int, j: int|
        0 <= i < out.len() && 0 <= j < out.len() && (#[trigger] out[i]).0 == col && out[i].1 == row
            && (#[trigger] out[j]).0 == col && out[j].1 == row implies i == j by {
        if i < j {
            assert(scan_before(out[i], out[j]));
        } else if j < i {
            assert(scan_before(out[j], out[i]));
        }
    }
}

/// After a drain the grid keeps its content and has no changed cell, so a
/// second drain right after it reports nothing.
pub proof fn lemma_drain_twice(cells: Grid, second: Seq<Change>)
    requires
        well_formed_grid(cells),
        drain_report(flushed(cells), second),
    ensures
        forall|c: int, r: int| #[trigger] read_cell(flushed(cells), c, r) == read_cell(cells, c, r),
        second.len() == 0,
{
    assert forall|c: int, r: int| #[trigger] read_cell(flushed(cells), c, r) == read_cell(cells, c, r) by {
        if in_bounds(cells, c, r) {
            assert(flushed(cells)[c][r] == Layer { changed: false, ..cells[c][r] });
        }
    }
    if second.len() > 0 {
        assert(reports_cell(flushed(cells), second[0]));
        let e = second[0];
        assert(flushed(cells)[e.0 as int][e.1 as int].changed == false);
    }
}

} // verus!
