use vstd::prelude::*;

verus! {

/// A foreground color, as the terminal names it.
#[derive(Clone, Copy, Debug, PartialEq, Eq, Structural)]
pub enum Color {
    Black,
    DarkGrey,
    Red,
    DarkRed,
    Green,
    DarkGreen,
    Yellow,
    DarkYellow,
    Blue,
    DarkBlue,
    Magenta,
    DarkMagenta,
    Cyan,
    DarkCyan,
    White,
    Grey,
    Rgb { r: u8, g: u8, b: u8 },
}

/// The fixed palette that the color shortcut steps through.
pub open spec fn palette() -> Seq<Color> {
    seq![
        Color::White,
        Color::Grey,
        Color::Black,
        Color::DarkGrey,
        Color::Red,
        Color::DarkRed,
        Color::Green,
        Color::DarkGreen,
        Color::Yellow,
        Color::DarkYellow,
        Color::Blue,
        Color::DarkBlue,
        Color::Magenta,
        Color::DarkMagenta,
        Color::Cyan,
        Color::DarkCyan,
    ]
}

/// The first index at or after `from` where `colors` holds `c`.
pub open spec fn color_search(colors: Seq<Color>, c: Color, from: nat) -> Option<nat>
    decreases colors.len() - from,
{
    if from >= colors.len() {
        None
    } else if colors[from as int] == c {
        Some(from)
    } else {
        color_search(colors, c, from + 1)
    }
}

/// The entry after `current` in `colors`, wrapping to the first after the last.
/// A color that is not in the list counts as standing at its first entry;
/// an empty list leaves `current` as it is.
pub open spec fn palette_successor(colors: Seq<Color>, current: Color) -> Color {
    if colors.len() == 0 {
        current
    } else {
        let n = match color_search(colors, current, 0) {
            Some(i) => i,
            None => 0,
        };
        if n + 1 < colors.len() {
            colors[(n + 1) as int]
        } else {
            colors[0]
        }
    }
}

/// The palette, in order.
pub fn generate_colors() -> (r: Vec<Color>)
    ensures
        r@ == palette(),
{
    let r = vec![
        Color::White,
        Color::Grey,
        Color::Black,
        Color::DarkGrey,
        Color::Red,
        Color::DarkRed,
        Color::Green,
        Color::DarkGreen,
        Color::Yellow,
        Color::DarkYellow,
        Color::Blue,
        Color::DarkBlue,
        Color::Magenta,
        Color::DarkMagenta,
        Color::Cyan,
        Color::DarkCyan,
    ];
    assert(r@ =~= palette());
    r
}

/// The color after `current` in `colors` (see `palette_successor`).
pub fn next_color(colors: &Vec<Color>, current: Color) -> (r: Color)
    ensures
        r == palette_successor(colors@, current),
{
    if colors.len() == 0 {
        return current;
    }
    let mut i: usize = 0;
    while i < colors.len()
        invariant
            i <= colors.len(),
            color_search(colors@, current, 0) == color_search(colors@, current, i as nat),
        ensures
            i < colors.len() ==> colors@[i as int] == current,
            color_search(colors@, current, 0) == color_search(colors@, current, i as nat),
        decreases colors.len() - i,
    {
        if colors[i] == current {
            break;
        }
        i = i + 1;
    }
    let n: usize = if i < colors.len() {
        i
    } else {
        0
    };
    if n + 1 < colors.len() {
        colors[n + 1]
    } else {
        colors[0]
    }
}

} // verus!
