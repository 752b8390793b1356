use vstd::prelude::*;

verus! {

/// Number of glyphs in the luma ramp.
pub const LUMA_LEN: usize = 92;

/// Index of the densest glyph of the ramp.
pub const LUMA_MAX: usize = 91;

/// The glyphs of the ramp, from blank (index 0) to densest (index 91).
pub open spec fn luma_ramp() -> Seq<char> {
    seq![
        ' ', '`', '.', '-', '\'', ':', '_', ',', '^', '=', ';', '>', '<', '+', '!', 'r', 'c', '*',
        '/', 'z', '?', 's', 'L', 'T', 'v', ')', 'J', '7', '(', '|', 'F', 'i', '{', 'C', '}', 'f',
        'I', '3', '1', 't', 'l', 'u', '[', 'n', 'e', 'o', 'Z', '5', 'Y', 'x', 'j', 'y', 'a', ']',
        '2', 'E', 'S', 'w', 'q', 'k', 'P', '6', 'h', '9', 'd', '4', 'V', 'p', 'O', 'G', 'b', 'U',
        'A', 'K', 'X', 'H', 'm', '8', 'R', 'D', '#', '$', 'B', 'g', '0', 'M', 'N', 'W', 'Q', '%',
        '&', '@',
    ]
}

/// The first index at or after `from` whose ramp glyph is `c`.
pub open spec fn luma_search(c: char, from: nat) -> Option<nat>
    decreases LUMA_LEN - from,
{
    if from >= LUMA_LEN {
        None
    } else if luma_ramp()[from as int] == c {
        Some(from)
    } else {
        luma_search(c, from + 1)
    }
}

/// The position of `c` in the ramp, if it is there.
pub open spec fn luma_position(c: char) -> Option<nat> {
    luma_search(c, 0)
}

/// The ramp as an array.
pub fn luma_values() -> (r: [char; 92])
    ensures
        r@ == luma_ramp(),
{
    let a: [char; 92] = [
        ' ', '`', '.', '-', '\'', ':', '_', ',', '^', '=', ';', '>', '<', '+', '!', 'r', 'c', '*',
        '/', 'z', '?', 's', 'L', 'T', 'v', ')', 'J', '7', '(', '|', 'F', 'i', '{', 'C', '}', 'f',
        'I', '3', '1', 't', 'l', 'u', '[', 'n', 'e', 'o', 'Z', '5', 'Y', 'x', 'j', 'y', 'a', ']',
        '2', 'E', 'S', 'w', 'q', 'k', 'P', '6', 'h', '9', 'd', '4', 'V', 'p', 'O', 'G', 'b', 'U',
        'A', 'K', 'X', 'H', 'm', '8', 'R', 'D', '#', '$', 'B', 'g', '0', 'M', 'N', 'W', 'Q', '%',
        '&', '@',
    ];
    assert(a@ =~= luma_ramp());
    a
}

/// The ramp glyph at `index`.
pub fn luma_glyph(index: usize) -> (c: char)
    requires
        index < LUMA_LEN,
    ensures
        c == luma_ramp()[index as int],
{
    let a = luma_values();
    a[index]
}

/// The position of `c` in the ramp, or `None` for a glyph outside it.
pub fn luma_index(c: char) -> (r: Option<usize>)
    ensures
        r matches Some(i) ==> luma_position(c) == Some(i as nat),
        r is None ==> luma_position(c) is None,
{
    let a = luma_values();
    let mut i: usize = 0;
    while i < LUMA_LEN
        invariant
            i <= LUMA_LEN,
            a@ == luma_ramp(),
            luma_position(c) == luma_search(c, i as nat),
        decreases LUMA_LEN - i,
    {
        if a[i] == c {
            return Some(i);
        }
        i = i + 1;
    }
    None
}

/// Every position found lies in the ramp and names the glyph searched for.
pub proof fn lemma_luma_position(c: char)
    ensures
        luma_position(c) matches Some(i) ==> i < LUMA_LEN && luma_ramp()[i as int] == c,
{
    lemma_luma_search(c, 0);
}

proof fn lemma_luma_search(c: char, from: nat)
    ensures
        luma_search(c, from) matches Some(i) ==> from <= i < LUMA_LEN && luma_ramp()[i as int] == c,
    decreases LUMA_LEN - from,
{
    if from < LUMA_LEN && luma_ramp()[from as int] != c {
        lemma_luma_search(c, from + 1);
    }
}

} // verus!
