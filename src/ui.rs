use vstd::prelude::*;

use crate::color::Color;
use crate::event::{click_pos_of, get_click_pos, Event};
use crate::modes::{mode_color, mode_name, Mode};
use crate::state::State;

verus! {

/// A labelled button of the status bar.
#[derive(Clone, Debug)]
pub struct Widget {
    pub text: String,
    pub color: Color,
    pub bg: Option<Color>,
    pub clicked: bool,
}

/// The status bar: its widgets, laid out left to right on the bottom row.
pub struct UI {
    pub elements: Vec<Widget>,
    pub pos: Option<(u8, u8)>,
    pub max: (usize, usize),
    pub pad: usize,
    pub final_pad: usize,
    pub offset: u8,
    pub bg_color: Color,
}

/// `v` cut at 255.
pub open spec fn sat_u8(v: int) -> u8 {
    if v > 255 {
        255
    } else {
        v as u8
    }
}

/// A click at `pos` lands on a label of `len` characters whose leading space
/// is at column `start`: on the bottom row, right of `start`, within the label.
/// Click positions carry their low eight bits, so the bottom row is compared
/// by its low eight bits too.
pub open spec fn hits(pos: Option<(u8, u8)>, max_height: int, start: int, len: int) -> bool {
    match pos {
        Some(p) => max_height >= 1 && p.1 == (max_height - 1) % 256 && start < p.0 && p.0 - start <= len,
        None => false,
    }
}

/// Sum of the widths of the widgets.
pub open spec fn used_width(ws: Seq<Widget>) -> int
    decreases ws.len(),
{
    if ws.len() == 0 {
        0
    } else {
        used_width(ws.drop_last()) + ws.last().text@.len() + 2
    }
}

/// Columns left over when the widgets take `used` of `max_width`.
pub open spec fn free_space(max_width: int, used: int) -> int {
    if used > max_width {
        0
    } else {
        max_width - used
    }
}

impl Widget {
    /// A widget with label `text` in `color`, not clicked.
    pub fn new(text: String, color: Color) -> (r: Widget)
        ensures
            r.text@ == text@,
            r.color == color,
            r.bg is None,
            !r.clicked,
    {
        Widget { text, color, bg: None, clicked: false }
    }

    /// Whether a click landed on this widget.
    pub fn clicked(&self) -> (r: bool)
        ensures
            r == self.clicked,
    {
        self.clicked
    }

    /// Width on screen: the label with a space on each side.
    pub fn get_width(&self) -> (r: usize)
        requires
            self.text@.len() + 2 <= usize::MAX,
        ensures
            r == self.text@.len() + 2,
    {
        self.text.as_str().unicode_len() + 2
    }

    /// Places the widget at `offset`: notes a click that lands on it and moves
    /// `offset` past it (the offset stops at 255).
    pub fn process(&mut self, pos: Option<(u8, u8)>, max_height: usize, offset: &mut u8, _bg_color: Color)
        ensures
            final(self).text == old(self).text,
            final(self).color == old(self).color,
            final(self).bg == old(self).bg,
            final(self).clicked == (old(self).clicked || hits(
                pos,
                max_height as int,
                *old(offset) + 1,
                old(self).text@.len() as int,
            )),
            *final(offset) == sat_u8(*old(offset) + old(self).text@.len() + 2),
    {
        let len = self.text.as_str().unicode_len();
        let start: usize = *offset as usize + 1;
        if let Some((col, row)) = pos {
            if max_height >= 1 && row as usize == (max_height - 1) % 256 && col as usize > start && col as usize - start
                <= len {
                self.clicked = true;
            }
        }
        *offset = if len > 253 || *offset as usize + len + 2 > 255 {
            255
        } else {
            (*offset as usize + len + 2) as u8
        };
    }
}

impl UI {
    /// Adds a widget after the others, one pad further right; returns it as placed.
    pub fn push(&mut self, el: Widget) -> (r: Widget)
        ensures
            ({
                let start = if old(self).elements.len() > 0 {
                    sat_u8(old(self).offset + old(self).pad)
                } else {
                    old(self).offset
                };
                &&& r.text == el.text
                &&& r.color == el.color
                &&& r.bg == el.bg
                &&& r.clicked == (el.clicked || hits(
                    old(self).pos,
                    old(self).max.1 as int,
                    start + 1,
                    el.text@.len() as int,
                ))
                &&& final(self).offset == sat_u8(start + el.text@.len() + 2)
                &&& final(self).elements@ == old(self).elements@.push(r)
            }),
            final(self).pos == old(self).pos,
            final(self).max == old(self).max,
            final(self).pad == old(self).pad,
            final(self).final_pad == old(self).final_pad,
            final(self).bg_color == old(self).bg_color,
    {
        let mut el = el;
        if self.elements.len() > 0 {
            self.offset = if self.pad > 255 || self.offset as usize + self.pad > 255 {
                255
            } else {
                (self.offset as usize + self.pad) as u8
            };
        }
        el.process(self.pos, self.max.1, &mut self.offset, Color::White);
        let placed = Widget { text: el.text.clone(), color: el.color, bg: el.bg, clicked: el.clicked };
        self.elements.push(el);
        placed
    }

    /// Spreads the columns that the widgets leave free evenly between them;
    /// the remainder goes after the last one. Returns the pad between two widgets.
    pub fn render(&mut self, max: (usize, usize), _bg_color: Color) -> (r: usize)
        requires
            old(self).elements.len() >= 2,
            used_width(old(self).elements@) <= usize::MAX,
        ensures
            ({
                let free = free_space(max.0 as int, used_width(old(self).elements@));
                let gaps = old(self).elements.len() - 1;
                &&& r == free / gaps
                &&& final(self).pad == r
                &&& final(self).final_pad == free % gaps
                &&& final(self).offset == sat_u8(old(self).offset + free)
            }),
            final(self).elements@ == old(self).elements@,
            final(self).pos == old(self).pos,
            final(self).max == old(self).max,
            final(self).bg_color == old(self).bg_color,
    {
        let (max_width, _max_height) = max;
        let mut used: usize = 0;
        let mut i: usize = 0;
        while i < self.elements.len()
            invariant
                i <= self.elements.len(),
                used == used_width(self.elements@.subrange(0, i as int)),
                used_width(self.elements@) <= usize::MAX,
            decreases self.elements.len() - i,
        {
            proof {
                let ws = self.elements@;
                assert(ws.subrange(0, i + 1).drop_last() =~= ws.subrange(0, i as int));
                lemma_used_width_prefix(ws, i + 1);
            }
            used = used + self.elements[i].get_width();
            i = i + 1;
        }
        assert(self.elements@.subrange(0, i as int) =~= self.elements@);
        let free_space = if used > max_width {
            0
        } else {
            max_width - used
        };
        let gaps = self.elements.len() - 1;
        self.pad = free_space / gaps;
        self.final_pad = free_space % gaps;
        self.offset = if free_space > 255 || self.offset as usize + free_space > 255 {
            255
        } else {
            (self.offset as usize + free_space) as u8
        };
        self.pad
    }

    /// The blank columns after widget `i`: the pad, or the remainder after the last one.
    pub fn gap(&self, i: usize) -> (r: usize)
        ensures
            r == if i + 1 == self.elements.len() {
                self.final_pad
            } else {
                self.pad
            },
    {
        if i < self.elements.len() && i + 1 == self.elements.len() {
            self.final_pad
        } else {
            self.pad
        }
    }
}

proof fn lemma_used_width_prefix(ws: Seq<Widget>, n: int)
    requires
        0 <= n <= ws.len(),
    ensures
        used_width(ws.subrange(0, n)) <= used_width(ws),
    decreases ws.len() - n,
{
    if n < ws.len() {
        lemma_used_width_prefix(ws, n + 1);
        assert(ws.subrange(0, n + 1).drop_last() =~= ws.subrange(0, n));
    } else {
        assert(ws.subrange(0, n) =~= ws);
    }
}

/// The labels of the status bar: a cyan button, the mode, a swatch, a red button.
pub open spec fn bar_labels(m: Mode) -> Seq<Seq<char>> {
    seq!["CYAN"@, mode_name(m), "T"@, "RED"@]
}

/// The offset at which widget `i` of a bar is placed, for the pad `pad` and
/// the label lengths `lens`.
pub open spec fn offset_before(pad: int, lens: Seq<int>, i: int) -> u8
    decreases i,
{
    if i <= 0 {
        0
    } else {
        sat_u8(sat_u8(offset_before(pad, lens, i - 1) + lens[i - 1] + 2) + pad)
    }
}

/// Widget `i` of the bar of `s` is hit by the click of `e`.
pub open spec fn bar_hit(s: State, e: Event, max_height: int, i: int) -> bool {
    let lens = bar_labels(s.mode).map_values(|l: Seq<char>| l.len() as int);
    hits(click_pos_of(e), max_height, offset_before(s.pad as int, lens, i) + 1, lens[i])
}

/// Builds the status bar for the frame after `event`. A click on the cyan or
/// the red button makes that the active color (red wins); the pad between the
/// widgets is recomputed for the width and kept in the session for the next
/// frame, whose layout uses it.
pub fn status_bar(state: &mut State, event: &Event, max_width: usize, max_height: usize) -> (ui: UI)
    requires
        old(state).wf(),
    ensures
        final(state).wf(),
        ui.elements.len() == 4,
        forall|i: int| 0 <= i < 4 ==> (#[trigger] ui.elements@[i]).text@ == bar_labels(old(state).mode)[i],
        forall|i: int|
            0 <= i < 4 ==> (#[trigger] ui.elements@[i]).clicked == bar_hit(*old(state), *event, max_height as int, i),
        forall|i: int| 0 <= i < 4 ==> (#[trigger] ui.elements@[i]).bg is None,
        ui.elements@[0].color == old(state).color,
        ui.elements@[1].color == Color::Black,
        ui.elements@[2].color == if ui.elements@[0].clicked {
            Color::Cyan
        } else {
            old(state).color
        },
        ui.elements@[3].color == ui.elements@[2].color,
        final(state).color == if ui.elements@[3].clicked {
            Color::Red
        } else {
            ui.elements@[2].color
        },
        ui.bg_color == mode_color(old(state).mode),
        ui.pos == click_pos_of(*event),
        final(state).pad == ui.pad,
        ui.pad == free_space(max_width as int, used_width(ui.elements@)) / 3,
        ui.final_pad == free_space(max_width as int, used_width(ui.elements@)) % 3,
        final(state).mode == old(state).mode,
        final(state).glyph == old(state).glyph,
        final(state).pos == old(state).pos,
        final(state).command == old(state).command,
        final(state).repaint_counter == old(state).repaint_counter,
        final(state).drag_pos == old(state).drag_pos,
        final(state).colors@ == old(state).colors@,
        final(state).virtual_display@ == old(state).virtual_display@,
{
    let ghost s0 = *state;
    let mut ui = UI {
        elements: Vec::new(),
        pos: get_click_pos(event),
        max: (max_width, max_height),
        pad: state.pad,
        final_pad: 0,
        offset: 0,
        bg_color: state.mode.get_color(),
    };
    let ghost lens = bar_labels(s0.mode).map_values(|l: Seq<char>| l.len() as int);
    let cyan = ui.push(Widget::new(String::from_str("CYAN"), state.color));
    assert(ui.offset == sat_u8(offset_before(s0.pad as int, lens, 0) + lens[0] + 2));
    if cyan.clicked {
        state.color = Color::Cyan;
    }
    ui.push(Widget::new(state.mode.name(), Color::Black));
    assert(ui.offset == sat_u8(offset_before(s0.pad as int, lens, 1) + lens[1] + 2));
    ui.push(Widget::new(String::from_str("T"), state.color));
    assert(ui.offset == sat_u8(offset_before(s0.pad as int, lens, 2) + lens[2] + 2));
    let red = ui.push(Widget::new(String::from_str("RED"), state.color));
    if red.clicked {
        state.color = Color::Red;
    }
    proof {
        reveal_strlit("CYAN");
        reveal_strlit("T");
        reveal_strlit("RED");
        reveal_strlit("BRUSH");
        reveal_strlit("EYEDROPPER");
        reveal_strlit("COMMAND");
        reveal_strlit("INSERT");
        reveal_strlit("PENCIL");
        reveal_strlit("CONTENT BRUSH");
        reveal_strlit("HEX");
        let ws = ui.elements@;
        assert(ws.drop_last().drop_last().drop_last().drop_last() =~= Seq::<Widget>::empty());
        assert(ws[1].text@.len() <= 13);
        reveal_with_fuel(used_width, 5);
        assert(used_width(ws) <= 40);
    }
    let bg = ui.bg_color;
    state.pad = ui.render((max_width, max_height), bg);
    ui
}

} // verus!
