use vstd::prelude::*;

use crate::color::Color;
use crate::event::{char_of, handle_keychar, Event};
use crate::modes::{default_brush, empty_hex, hex_slots, BrushData, HexData, Mode};
use crate::state::{keeps_session, same_state, State};

verus! {

/// The value of a hexadecimal digit, either case.
pub open spec fn hex_value(c: char) -> Option<u8> {
    if '0' <= c <= '9' {
        Some((c as u32 - '0' as u32) as u8)
    } else if 'a' <= c <= 'f' {
        Some((c as u32 - 'a' as u32 + 10) as u8)
    } else if 'A' <= c <= 'F' {
        Some((c as u32 - 'A' as u32 + 10) as u8)
    } else {
        None
    }
}

/// `h` with `v` in its first empty slot; a full entry stays as it is.
pub open spec fn hex_fill(h: HexData, v: u8) -> HexData {
    if h.r.0 is None {
        HexData { r: (Some(v), h.r.1), ..h }
    } else if h.r.1 is None {
        HexData { r: (h.r.0, Some(v)), ..h }
    } else if h.g.0 is None {
        HexData { g: (Some(v), h.g.1), ..h }
    } else if h.g.1 is None {
        HexData { g: (h.g.0, Some(v)), ..h }
    } else if h.b.0 is None {
        HexData { b: (Some(v), h.b.1), ..h }
    } else if h.b.1 is None {
        HexData { b: (h.b.0, Some(v)), ..h }
    } else {
        h
    }
}

/// The entry after the key `c`: a hex digit fills the next slot, any other key is ignored.
pub open spec fn hex_feed(h: HexData, c: char) -> HexData {
    match hex_value(c) {
        Some(v) => hex_fill(h, v),
        None => h,
    }
}

/// The color that a complete entry names: each channel is high * 16 + low.
pub open spec fn hex_color(h: HexData) -> Option<Color> {
    match (h.r, h.g, h.b) {
        ((Some(r1), Some(r2)), (Some(g1), Some(g2)), (Some(b1), Some(b2))) => Some(
            Color::Rgb {
                r: (r1 * 16 + r2) as u8,
                g: (g1 * 16 + g2) as u8,
                b: (b1 * 16 + b2) as u8,
            },
        ),
        _ => None,
    }
}

/// What hex entry does with `e`: a key is fed to the entry; once all six
/// digits are in, the active color becomes the entered color and a fresh brush
/// takes over. Other events change nothing.
pub open spec fn hex_step(s: State, e: Event, t: State) -> bool {
    match s.mode {
        Mode::Hex(h) => match char_of(e) {
            None => same_state(s, t),
            Some(c) => {
                let h2 = hex_feed(h, c);
                &&& keeps_session(s, t)
                &&& t.glyph == s.glyph
                &&& t.pos == s.pos
                &&& t.command == s.command
                &&& t.virtual_display@ == s.virtual_display@
                &&& match hex_color(h2) {
                    Some(col) => t.color == col && t.mode == Mode::Brush(default_brush()),
                    None => t.color == s.color && t.mode == Mode::Hex(h2),
                }
            },
        },
        _ => false,
    }
}

/// The value of a hexadecimal digit, either case.
pub fn hex_digit(c: char) -> (r: Option<u8>)
    ensures
        r == hex_value(c),
{
    if '0' <= c && c <= '9' {
        Some((c as u32 - '0' as u32) as u8)
    } else if 'a' <= c && c <= 'f' {
        Some((c as u32 - 'a' as u32 + 10) as u8)
    } else if 'A' <= c && c <= 'F' {
        Some((c as u32 - 'A' as u32 + 10) as u8)
    } else {
        None
    }
}

proof fn lemma_hex_value_small(c: char)
    ensures
        hex_value(c) matches Some(v) ==> v < 16,
{
}

proof fn lemma_fill_wf(h: HexData, v: u8)
    requires
        h.wf(),
        v < 16,
    ensures
        hex_fill(h, v).wf(),
{
    let f = hex_fill(h, v);
    assert(hex_slots(h) =~= seq![h.r.0, h.r.1, h.g.0, h.g.1, h.b.0, h.b.1]);
    assert(hex_slots(f) =~= seq![f.r.0, f.r.1, f.g.0, f.g.1, f.b.0, f.b.1]);
    assert forall|i: int| 0 <= i < 6 implies (#[trigger] hex_slots(f)[i] matches Some(d) ==> d < 16) by {
        assert(hex_slots(h)[i] matches Some(d) ==> d < 16);
    }
    assert forall|i: int, j: int|
        0 <= i < j < 6 && (#[trigger] hex_slots(f)[j]) is Some implies (#[trigger] hex_slots(f)[i]) is Some by {
        assert(hex_slots(h)[0] is None ==> hex_slots(h)[1] is None);
        assert(hex_slots(h)[1] is None ==> hex_slots(h)[2] is None);
        assert(hex_slots(h)[2] is None ==> hex_slots(h)[3] is None);
        assert(hex_slots(h)[3] is None ==> hex_slots(h)[4] is None);
        assert(hex_slots(h)[4] is None ==> hex_slots(h)[5] is None);
    }
}

/// Hex entry: collects six digits, then sets the active color and switches to a fresh brush.
pub fn hex(event: &Event, state: &mut State)
    requires
        old(state).wf(),
        old(state).mode is Hex,
    ensures
        final(state).wf(),
        hex_step(*old(state), *event, *final(state)),
{
    let mut data = match state.mode {
        Mode::Hex(h) => h,
        _ => return ,
    };
    let c = match handle_keychar(event) {
        Some(c) => c,
        None => return ,
    };
    let ghost h0 = data;
    if let Some(v) = hex_digit(c) {
        proof {
            lemma_hex_value_small(c);
            lemma_fill_wf(h0, v);
        }
        if data.r.0.is_none() {
            data.r.0 = Some(v);
        } else if data.r.1.is_none() {
            data.r.1 = Some(v);
        } else if data.g.0.is_none() {
            data.g.0 = Some(v);
        } else if data.g.1.is_none() {
            data.g.1 = Some(v);
        } else if data.b.0.is_none() {
            data.b.0 = Some(v);
        } else if data.b.1.is_none() {
            data.b.1 = Some(v);
        }
    }
    assert(data == hex_feed(h0, c));
    assert(data.wf());
    assert(hex_slots(data)[0] matches Some(d) ==> d < 16);
    assert(hex_slots(data)[1] matches Some(d) ==> d < 16);
    assert(hex_slots(data)[2] matches Some(d) ==> d < 16);
    assert(hex_slots(data)[3] matches Some(d) ==> d < 16);
    assert(hex_slots(data)[4] matches Some(d) ==> d < 16);
    assert(hex_slots(data)[5] matches Some(d) ==> d < 16);
    match (data.r, data.g, data.b) {
        ((Some(r1), Some(r2)), (Some(g1), Some(g2)), (Some(b1), Some(b2))) => {
            state.color = Color::Rgb { r: r1 * 16 + r2, g: g1 * 16 + g2, b: b1 * 16 + b2 };
            state.mode = Mode::Brush(BrushData::default());
        },
        _ => {
            state.mode = Mode::Hex(data);
        },
    }
}

/// Six hex digits entered into a fresh entry name the color whose channels
/// are the three digit pairs; after only five no color is named yet, so the
/// entry goes on and the active color stays.
pub proof fn lemma_six_digits(c0: char, c1: char, c2: char, c3: char, c4: char, c5: char)
    requires
        hex_value(c0) is Some,
        hex_value(c1) is Some,
        hex_value(c2) is Some,
        hex_value(c3) is Some,
        hex_value(c4) is Some,
        hex_value(c5) is Some,
    ensures
        hex_color(hex_feed(empty_hex(), c0)) is None,
        hex_color(hex_feed(hex_feed(empty_hex(), c0), c1)) is None,
        hex_color(hex_feed(hex_feed(hex_feed(empty_hex(), c0), c1), c2)) is None,
        hex_color(hex_feed(hex_feed(hex_feed(hex_feed(empty_hex(), c0), c1), c2), c3)) is None,
        hex_color(hex_feed(hex_feed(hex_feed(hex_feed(hex_feed(empty_hex(), c0), c1), c2), c3), c4)) is None,
        hex_color(
            hex_feed(hex_feed(hex_feed(hex_feed(hex_feed(hex_feed(empty_hex(), c0), c1), c2), c3), c4), c5),
        ) == Some(
            Color::Rgb {
                r: (hex_value(c0).unwrap() * 16 + hex_value(c1).unwrap()) as u8,
                g: (hex_value(c2).unwrap() * 16 + hex_value(c3).unwrap()) as u8,
                b: (hex_value(c4).unwrap() * 16 + hex_value(c5).unwrap()) as u8,
            },
        ),
{
}

} // verus!
