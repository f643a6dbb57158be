//! Display colours: a fixed palette, and the entry that a name selects.

use vstd::prelude::*;
use vstd::string::*;

verus! {

/// Number of colours in the palette.
pub const PALETTE_LEN: usize = 16;

/// Sum of the code points of the characters of `name`.
pub open spec fn code_point_sum(name: Seq<char>) -> nat
    decreases name.len(),
{
    if name.len() == 0 {
        0
    } else {
        code_point_sum(name.drop_last()) + (name.last() as nat)
    }
}

/// The palette, entry by entry.
pub open spec fn palette_entry(index: nat) -> Seq<char> {
    if index == 0 {
        "#EF4444"@
    } else if index == 1 {
        "#F97316"@
    } else if index == 2 {
        "#F59E0B"@
    } else if index == 3 {
        "#EAB308"@
    } else if index == 4 {
        "#84CC16"@
    } else if index == 5 {
        "#22C55E"@
    } else if index == 6 {
        "#10B981"@
    } else if index == 7 {
        "#14B8A6"@
    } else if index == 8 {
        "#06B6D4"@
    } else if index == 9 {
        "#0EA5E9"@
    } else if index == 10 {
        "#3B82F6"@
    } else if index == 11 {
        "#6366F1"@
    } else if index == 12 {
        "#8B5CF6"@
    } else if index == 13 {
        "#A855F7"@
    } else if index == 14 {
        "#D946EF"@
    } else {
        "#EC4899"@
    }
}

/// Index of the palette entry that `name` selects: its code point sum,
/// reduced modulo the palette's length.
pub open spec fn palette_index(name: Seq<char>) -> nat {
    code_point_sum(name) % 16
}

/// The colour of `name`.
pub open spec fn color_of(name: Seq<char>) -> Seq<char> {
    palette_entry(palette_index(name))
}

/// Whether `color` is one of the palette's entries.
pub open spec fn in_palette(color: Seq<char>) -> bool {
    exists|index: nat| index < 16 && color == #[trigger] palette_entry(index)
}

/// The palette entry at `index`.
pub fn palette_color(index: usize) -> (color: &'static str)
    requires
        index < PALETTE_LEN,
    ensures
        color@ == palette_entry(index as nat),
{
    match index {
        0 => "#EF4444",
        1 => "#F97316",
        2 => "#F59E0B",
        3 => "#EAB308",
        4 => "#84CC16",
        5 => "#22C55E",
        6 => "#10B981",
        7 => "#14B8A6",
        8 => "#06B6D4",
        9 => "#0EA5E9",
        10 => "#3B82F6",
        11 => "#6366F1",
        12 => "#8B5CF6",
        13 => "#A855F7",
        14 => "#D946EF",
        _ => "#EC4899",
    }
}

/// Computes the palette index of `name`, keeping the running sum reduced so
/// that no name, however long, overflows it.
pub fn color_index(name: &str) -> (index: usize)
    ensures
        index as nat == palette_index(name@),
        index < PALETTE_LEN,
{
    let len: usize = name.unicode_len();
    let mut acc: u32 = 0;
    let mut i: usize = 0;
    while i < len
        invariant
            len as nat == name@.len(),
            i <= len,
            acc < 16,
            acc as nat == code_point_sum(name@.take(i as int)) % 16,
        decreases len - i,
    {
        let c: char = name.get_char(i);
        proof {
            let prefix = name@.take(i as int + 1);
            assert(prefix.drop_last() == name@.take(i as int));
            assert(prefix.last() == c);
        }
        acc = (acc + (c as u32) % 16) % 16;
        i = i + 1;
    }
    proof {
        assert(name@.take(len as int) == name@);
    }
    acc as usize
}

/// Every name has a colour, and it is one of the palette's.
pub proof fn color_of_in_palette(name: Seq<char>)
    ensures
        in_palette(color_of(name)),
{
    assert(palette_index(name) < 16);
}

} // verus!
