use vstd::prelude::*;

use crate::color::Color;

pub mod brush;
pub mod command;
pub mod content_brush;
pub mod eyedropper;
pub mod hex;
pub mod insert;
pub mod pencil;

verus! {

/// The active tool, with the parameters that only that tool uses.
#[derive(Clone, Copy, Debug, PartialEq, Eq)]
pub enum Mode {
    Brush(BrushData),
    Pencil(PencilData),
    Insert,
    Command,
    Eyedropper,
    ContentBrush,
    Hex(HexData),
}

/// The glyph that the pencil draws.
#[derive(Clone, Copy, Debug, PartialEq, Eq, Structural)]
pub struct PencilData {
    pub pencil: char,
}

/// Radius and blend direction of the luminance brush.
#[derive(Clone, Copy, Debug, PartialEq, Eq, Structural)]
pub struct BrushData {
    pub size: u8,
    pub mode: BrushMode,
}

/// The hexadecimal digits entered so far, as (high, low) nibble pairs.
#[derive(Clone, Copy, Debug, PartialEq, Eq)]
pub struct HexData {
    pub r: (Option<u8>, Option<u8>),
    pub g: (Option<u8>, Option<u8>),
    pub b: (Option<u8>, Option<u8>),
}

/// Whether the brush adds density or takes it away.
#[derive(Clone, Copy, Debug, PartialEq, Eq, Structural)]
pub enum BrushMode {
    Add,
    Subtract,
}

/// A fresh brush: size 1, additive.
pub open spec fn default_brush() -> BrushData {
    BrushData { size: 1, mode: BrushMode::Add }
}

/// A hex entry with no digit yet.
pub open spec fn empty_hex() -> HexData {
    HexData { r: (None, None), g: (None, None), b: (None, None) }
}

impl Default for BrushData {
    fn default() -> (r: Self)
        ensures
            r == default_brush(),
    {
        Self { size: 1, mode: BrushMode::Add }
    }
}

impl Default for HexData {
    fn default() -> (r: Self)
        ensures
            r == empty_hex(),
    {
        Self { r: (None, None), g: (None, None), b: (None, None) }
    }
}

/// Some digit slot is still empty.
pub open spec fn hex_incomplete(h: HexData) -> bool {
    h.r.0 is None || h.r.1 is None || h.g.0 is None || h.g.1 is None || h.b.0 is None || h.b.1 is None
}

/// The six digit slots in entry order.
pub open spec fn hex_slots(h: HexData) -> Seq<Option<u8>> {
    seq![h.r.0, h.r.1, h.g.0, h.g.1, h.b.0, h.b.1]
}

impl HexData {
    /// Every entered digit is below 16, and the digits fill the slots in order.
    pub open spec fn wf(&self) -> bool {
        &&& forall|i: int| 0 <= i < 6 ==> (#[trigger] hex_slots(*self)[i] matches Some(d) ==> d < 16)
        &&& forall|i: int, j: int|
            0 <= i < j < 6 && (#[trigger] hex_slots(*self)[j]) is Some ==> (#[trigger] hex_slots(*self)[i]) is Some
    }
}

/// The parameters of the active mode are valid: a brush has size at least 1,
/// a hex entry is well formed and still lacks a digit (a complete entry has
/// already been turned into a color).
pub open spec fn mode_wf(m: Mode) -> bool {
    match m {
        Mode::Brush(d) => d.size >= 1,
        Mode::Hex(h) => h.wf() && hex_incomplete(h),
        _ => true,
    }
}

/// The label of a mode.
pub open spec fn mode_name(m: Mode) -> Seq<char> {
    match m {
        Mode::Brush(_) => "BRUSH"@,
        Mode::Eyedropper => "EYEDROPPER"@,
        Mode::Command => "COMMAND"@,
        Mode::Insert => "INSERT"@,
        Mode::Pencil(_) => "PENCIL"@,
        Mode::ContentBrush => "CONTENT BRUSH"@,
        Mode::Hex(_) => "HEX"@,
    }
}

/// The status-bar color of a mode.
pub open spec fn mode_color(m: Mode) -> Color {
    match m {
        Mode::Brush(_) => Color::DarkGreen,
        Mode::Eyedropper => Color::DarkMagenta,
        Mode::Command => Color::DarkRed,
        Mode::Insert => Color::DarkCyan,
        Mode::Pencil(_) => Color::DarkYellow,
        Mode::ContentBrush => Color::Green,
        Mode::Hex(_) => Color::DarkBlue,
    }
}

impl Mode {
    /// The status-bar color of this mode.
    pub fn get_color(&self) -> (r: Color)
        ensures
            r == mode_color(*self),
    {
        match self {
            Mode::Brush(_) => Color::DarkGreen,
            Mode::Eyedropper => Color::DarkMagenta,
            Mode::Command => Color::DarkRed,
            Mode::Insert => Color::DarkCyan,
            Mode::Pencil(_) => Color::DarkYellow,
            Mode::ContentBrush => Color::Green,
            Mode::Hex(_) => Color::DarkBlue,
        }
    }

    /// The label of this mode.
    pub fn name(&self) -> (r: String)
        ensures
            r@ == mode_name(*self),
    {
        let s = match self {
            Mode::Brush(_) => "BRUSH",
            Mode::Eyedropper => "EYEDROPPER",
            Mode::Command => "COMMAND",
            Mode::Insert => "INSERT",
            Mode::Pencil(_) => "PENCIL",
            Mode::ContentBrush => "CONTENT BRUSH",
            Mode::Hex(_) => "HEX",
        };
        String::from_str(s)
    }
}

} // verus!
