//! The glyph table: the curated mapping from edge descriptors to the
//! Unicode box-drawing alphabet, and the resolution of a merged descriptor
//! to the single character a cell displays.

use vstd::prelude::*;

verus! {

use crate::descriptor::{BoxCharacterKey, merged_key, zero_key};

/// The curated glyph table as a total mathematical function.
///
/// Every descriptor assembled from the four weight families (single,
/// double, bold and their mixed junctions), the dashed runs and the
/// special subset of diagonals, rounded corners and half-edges resolves to
/// its box-drawing character; every combination outside the curated set
/// resolves to the blank glyph.  Blanks are deliberate degraded behaviour,
/// not an error: the box-drawing alphabet is intentionally finite.
pub open spec fn glyph_of(key: BoxCharacterKey) -> char {
    match (key.up, key.down, key.left, key.right, key.dashes, key.special) {
        (0, 0, 0, 0, 0, false) => ' ',
        (0, 0, 1, 3, 0, false) => '╼',
        (0, 0, 3, 1, 0, false) => '╾',
        (1, 3, 0, 0, 0, false) => '╽',
        (3, 1, 0, 0, 0, false) => '╿',
        (0, 1, 0, 3, 0, false) => '┍',
        (0, 3, 0, 1, 0, false) => '┎',
        (0, 1, 3, 0, 0, false) => '┑',
        (0, 3, 1, 0, 0, false) => '┒',
        (1, 0, 0, 3, 0, false) => '┕',
        (3, 0, 0, 1, 0, false) => '┖',
        (1, 0, 3, 0, 0, false) => '┙',
        (3, 0, 1, 0, 0, false) => '┚',
        (1, 1, 0, 3, 0, false) => '┝',
        (3, 1, 0, 1, 0, false) => '┞',
        (1, 3, 0, 1, 0, false) => '┟',
        (3, 3, 0, 1, 0, false) => '┠',
        (3, 1, 0, 3, 0, false) => '┡',
        (1, 3, 0, 3, 0, false) => '┢',
        (1, 1, 3, 0, 0, false) => '┥',
        (3, 1, 1, 0, 0, false) => '┦',
        (1, 3, 1, 0, 0, false) => '┧',
        (3, 3, 1, 0, 0, false) => '┨',
        (3, 1, 3, 0, 0, false) => '┩',
        (1, 3, 3, 0, 0, false) => '┪',
        (0, 1, 3, 1, 0, false) => '┭',
        (0, 1, 1, 3, 0, false) => '┮',
        (0, 1, 3, 3, 0, false) => '┯',
        (0, 3, 1, 1, 0, false) => '┰',
        (0, 3, 3, 1, 0, false) => '┱',
        (0, 3, 1, 3, 0, false) => '┲',
        (1, 0, 3, 1, 0, false) => '┵',
        (1, 0, 1, 3, 0, false) => '┶',
        (1, 0, 3, 3, 0, false) => '┷',
        (3, 0, 1, 1, 0, false) => '┸',
        (3, 0, 3, 1, 0, false) => '┹',
        (3, 0, 1, 3, 0, false) => '┺',
        (1, 1, 3, 1, 0, false) => '┽',
        (1, 1, 1, 3, 0, false) => '┾',
        (1, 1, 3, 3, 0, false) => '┿',
        (3, 1, 1, 1, 0, false) => '╀',
        (1, 3, 1, 1, 0, false) => '╁',
        (3, 3, 1, 1, 0, false) => '╂',
        (3, 1, 3, 1, 0, false) => '╃',
        (3, 1, 1, 3, 0, false) => '╄',
        (1, 3, 3, 1, 0, false) => '╅',
        (1, 3, 1, 3, 0, false) => '╆',
        (3, 1, 3, 3, 0, false) => '╇',
        (1, 3, 3, 3, 0, false) => '╈',
        (3, 3, 3, 1, 0, false) => '╉',
        (3, 3, 1, 3, 0, false) => '╊',
        (0, 1, 0, 2, 0, false) => '╒',
        (0, 2, 0, 1, 0, false) => '╓',
        (0, 1, 2, 0, 0, false) => '╕',
        (0, 2, 1, 0, 0, false) => '╖',
        (1, 0, 0, 2, 0, false) => '╘',
        (2, 0, 0, 1, 0, false) => '╙',
        (1, 0, 2, 0, 0, false) => '╛',
        (2, 0, 1, 0, 0, false) => '╜',
        (1, 1, 0, 2, 0, false) => '╞',
        (2, 2, 0, 1, 0, false) => '╟',
        (1, 1, 2, 0, 0, false) => '╡',
        (2, 2, 1, 0, 0, false) => '╢',
        (0, 1, 2, 2, 0, false) => '╤',
        (0, 2, 1, 1, 0, false) => '╥',
        (1, 0, 2, 2, 0, false) => '╧',
        (2, 0, 1, 1, 0, false) => '╨',
        (1, 1, 2, 2, 0, false) => '╪',
        (2, 2, 1, 1, 0, false) => '╫',
        (0, 0, 3, 3, 0, false) => '━',
        (3, 3, 0, 0, 0, false) => '┃',
        (0, 3, 0, 3, 0, false) => '┏',
        (0, 3, 3, 0, 0, false) => '┓',
        (3, 0, 0, 3, 0, false) => '┗',
        (3, 0, 3, 0, 0, false) => '┛',
        (3, 3, 0, 3, 0, false) => '┣',
        (3, 3, 3, 0, 0, false) => '┫',
        (0, 3, 3, 3, 0, false) => '┳',
        (3, 0, 3, 3, 0, false) => '┻',
        (3, 3, 3, 3, 0, false) => '╋',
        (0, 0, 1, 1, 0, false) => '─',
        (1, 1, 0, 0, 0, false) => '│',
        (0, 1, 0, 1, 0, false) => '┌',
        (0, 1, 1, 0, 0, false) => '┐',
        (1, 0, 0, 1, 0, false) => '└',
        (1, 0, 1, 0, 0, false) => '┘',
        (1, 1, 0, 1, 0, false) => '├',
        (1, 1, 1, 0, 0, false) => '┤',
        (0, 1, 1, 1, 0, false) => '┬',
        (1, 0, 1, 1, 0, false) => '┴',
        (1, 1, 1, 1, 0, false) => '┼',
        (0, 0, 2, 2, 0, false) => '═',
        (2, 2, 0, 0, 0, false) => '║',
        (0, 2, 0, 2, 0, false) => '╔',
        (0, 2, 2, 0, 0, false) => '╗',
        (2, 0, 0, 2, 0, false) => '╚',
        (2, 0, 2, 0, 0, false) => '╝',
        (2, 2, 0, 2, 0, false) => '╠',
        (2, 2, 2, 0, 0, false) => '╣',
        (0, 2, 2, 2, 0, false) => '╦',
        (2, 0, 2, 2, 0, false) => '╩',
        (2, 2, 2, 2, 0, false) => '╬',
        (1, 1, 0, 0, 0, true) => '╱',
        (0, 0, 1, 1, 0, true) => '╲',
        (1, 1, 1, 1, 0, true) => '╳',
        (1, 0, 0, 1, 0, true) => '╰',
        (0, 1, 0, 1, 0, true) => '╭',
        (0, 1, 1, 0, 0, true) => '╮',
        (1, 0, 1, 0, 0, true) => '╯',
        (0, 0, 1, 1, 2, true) => '╌',
        (0, 0, 1, 1, 3, true) => '┄',
        (0, 0, 1, 1, 4, true) => '┈',
        (0, 0, 3, 3, 2, true) => '╍',
        (0, 0, 3, 3, 3, true) => '┅',
        (0, 0, 3, 3, 4, true) => '┉',
        (1, 1, 0, 0, 2, true) => '╎',
        (1, 1, 0, 0, 3, true) => '┆',
        (1, 1, 0, 0, 4, true) => '┊',
        (3, 3, 0, 0, 2, true) => '╏',
        (3, 3, 0, 0, 3, true) => '┇',
        (3, 3, 0, 0, 4, true) => '┋',
        (0, 0, 1, 0, 0, true) => '╴',
        (1, 0, 0, 0, 0, true) => '╵',
        (0, 0, 0, 1, 0, true) => '╶',
        (0, 1, 0, 0, 0, true) => '╷',
        (0, 0, 3, 0, 0, true) => '╸',
        (3, 0, 0, 0, 0, true) => '╹',
        (0, 0, 0, 3, 0, true) => '╺',
        (0, 3, 0, 0, 0, true) => '╻',
        _ => ' ',
    }
}

/// Resolves a descriptor to the character the cell displays: the curated
/// glyph where one exists, the blank glyph otherwise.  Total on all
/// descriptors and O(1).
pub fn lookup(key: BoxCharacterKey) -> (glyph: char)
    ensures
        glyph == glyph_of(key),
{
    match (key.up, key.down, key.left, key.right, key.dashes, key.special) {
        (0, 0, 0, 0, 0, false) => ' ',
        (0, 0, 1, 3, 0, false) => '╼',
        (0, 0, 3, 1, 0, false) => '╾',
        (1, 3, 0, 0, 0, false) => '╽',
        (3, 1, 0, 0, 0, false) => '╿',
        (0, 1, 0, 3, 0, false) => '┍',
        (0, 3, 0, 1, 0, false) => '┎',
        (0, 1, 3, 0, 0, false) => '┑',
        (0, 3, 1, 0, 0, false) => '┒',
        (1, 0, 0, 3, 0, false) => '┕',
        (3, 0, 0, 1, 0, false) => '┖',
        (1, 0, 3, 0, 0, false) => '┙',
        (3, 0, 1, 0, 0, false) => '┚',
        (1, 1, 0, 3, 0, false) => '┝',
        (3, 1, 0, 1, 0, false) => '┞',
        (1, 3, 0, 1, 0, false) => '┟',
        (3, 3, 0, 1, 0, false) => '┠',
        (3, 1, 0, 3, 0, false) => '┡',
        (1, 3, 0, 3, 0, false) => '┢',
        (1, 1, 3, 0, 0, false) => '┥',
        (3, 1, 1, 0, 0, false) => '┦',
        (1, 3, 1, 0, 0, false) => '┧',
        (3, 3, 1, 0, 0, false) => '┨',
        (3, 1, 3, 0, 0, false) => '┩',
        (1, 3, 3, 0, 0, false) => '┪',
        (0, 1, 3, 1, 0, false) => '┭',
        (0, 1, 1, 3, 0, false) => '┮',
        (0, 1, 3, 3, 0, false) => '┯',
        (0, 3, 1, 1, 0, false) => '┰',
        (0, 3, 3, 1, 0, false) => '┱',
        (0, 3, 1, 3, 0, false) => '┲',
        (1, 0, 3, 1, 0, false) => '┵',
        (1, 0, 1, 3, 0, false) => '┶',
        (1, 0, 3, 3, 0, false) => '┷',
        (3, 0, 1, 1, 0, false) => '┸',
        (3, 0, 3, 1, 0, false) => '┹',
        (3, 0, 1, 3, 0, false) => '┺',
        (1, 1, 3, 1, 0, false) => '┽',
        (1, 1, 1, 3, 0, false) => '┾',
        (1, 1, 3, 3, 0, false) => '┿',
        (3, 1, 1, 1, 0, false) => '╀',
        (1, 3, 1, 1, 0, false) => '╁',
        (3, 3, 1, 1, 0, false) => '╂',
        (3, 1, 3, 1, 0, false) => '╃',
        (3, 1, 1, 3, 0, false) => '╄',
        (1, 3, 3, 1, 0, false) => '╅',
        (1, 3, 1, 3, 0, false) => '╆',
        (3, 1, 3, 3, 0, false) => '╇',
        (1, 3, 3, 3, 0, false) => '╈',
        (3, 3, 3, 1, 0, false) => '╉',
        (3, 3, 1, 3, 0, false) => '╊',
        (0, 1, 0, 2, 0, false) => '╒',
        (0, 2, 0, 1, 0, false) => '╓',
        (0, 1, 2, 0, 0, false) => '╕',
        (0, 2, 1, 0, 0, false) => '╖',
        (1, 0, 0, 2, 0, false) => '╘',
        (2, 0, 0, 1, 0, false) => '╙',
        (1, 0, 2, 0, 0, false) => '╛',
        (2, 0, 1, 0, 0, false) => '╜',
        (1, 1, 0, 2, 0, false) => '╞',
        (2, 2, 0, 1, 0, false) => '╟',
        (1, 1, 2, 0, 0, false) => '╡',
        (2, 2, 1, 0, 0, false) => '╢',
        (0, 1, 2, 2, 0, false) => '╤',
        (0, 2, 1, 1, 0, false) => '╥',
        (1, 0, 2, 2, 0, false) => '╧',
        (2, 0, 1, 1, 0, false) => '╨',
        (1, 1, 2, 2, 0, false) => '╪',
        (2, 2, 1, 1, 0, false) => '╫',
        (0, 0, 3, 3, 0, false) => '━',
        (3, 3, 0, 0, 0, false) => '┃',
        (0, 3, 0, 3, 0, false) => '┏',
        (0, 3, 3, 0, 0, false) => '┓',
        (3, 0, 0, 3, 0, false) => '┗',
        (3, 0, 3, 0, 0, false) => '┛',
        (3, 3, 0, 3, 0, false) => '┣',
        (3, 3, 3, 0, 0, false) => '┫',
        (0, 3, 3, 3, 0, false) => '┳',
        (3, 0, 3, 3, 0, false) => '┻',
        (3, 3, 3, 3, 0, false) => '╋',
        (0, 0, 1, 1, 0, false) => '─',
        (1, 1, 0, 0, 0, false) => '│',
        (0, 1, 0, 1, 0, false) => '┌',
        (0, 1, 1, 0, 0, false) => '┐',
        (1, 0, 0, 1, 0, false) => '└',
        (1, 0, 1, 0, 0, false) => '┘',
        (1, 1, 0, 1, 0, false) => '├',
        (1, 1, 1, 0, 0, false) => '┤',
        (0, 1, 1, 1, 0, false) => '┬',
        (1, 0, 1, 1, 0, false) => '┴',
        (1, 1, 1, 1, 0, false) => '┼',
        (0, 0, 2, 2, 0, false) => '═',
        (2, 2, 0, 0, 0, false) => '║',
        (0, 2, 0, 2, 0, false) => '╔',
        (0, 2, 2, 0, 0, false) => '╗',
        (2, 0, 0, 2, 0, false) => '╚',
        (2, 0, 2, 0, 0, false) => '╝',
        (2, 2, 0, 2, 0, false) => '╠',
        (2, 2, 2, 0, 0, false) => '╣',
        (0, 2, 2, 2, 0, false) => '╦',
        (2, 0, 2, 2, 0, false) => '╩',
        (2, 2, 2, 2, 0, false) => '╬',
        (1, 1, 0, 0, 0, true) => '╱',
        (0, 0, 1, 1, 0, true) => '╲',
        (1, 1, 1, 1, 0, true) => '╳',
        (1, 0, 0, 1, 0, true) => '╰',
        (0, 1, 0, 1, 0, true) => '╭',
        (0, 1, 1, 0, 0, true) => '╮',
        (1, 0, 1, 0, 0, true) => '╯',
        (0, 0, 1, 1, 2, true) => '╌',
        (0, 0, 1, 1, 3, true) => '┄',
        (0, 0, 1, 1, 4, true) => '┈',
        (0, 0, 3, 3, 2, true) => '╍',
        (0, 0, 3, 3, 3, true) => '┅',
        (0, 0, 3, 3, 4, true) => '┉',
        (1, 1, 0, 0, 2, true) => '╎',
        (1, 1, 0, 0, 3, true) => '┆',
        (1, 1, 0, 0, 4, true) => '┊',
        (3, 3, 0, 0, 2, true) => '╏',
        (3, 3, 0, 0, 3, true) => '┇',
        (3, 3, 0, 0, 4, true) => '┋',
        (0, 0, 1, 0, 0, true) => '╴',
        (1, 0, 0, 0, 0, true) => '╵',
        (0, 0, 0, 1, 0, true) => '╶',
        (0, 1, 0, 0, 0, true) => '╷',
        (0, 0, 3, 0, 0, true) => '╸',
        (3, 0, 0, 0, 0, true) => '╹',
        (0, 0, 0, 3, 0, true) => '╺',
        (0, 3, 0, 0, 0, true) => '╻',
        _ => ' ',
    }
}

/// The descriptor a merge works against when the cell has no stored
/// state yet: the given one, or the zero descriptor in its absence.
pub open spec fn stored_or_zero(key_2: Option<BoxCharacterKey>) -> BoxCharacterKey {
    match key_2 {
        Some(k) => k,
        None => zero_key(),
    }
}

/// Merges a new drawing instruction `key_1` with the descriptor a cell
/// already holds (`key_2`, absent for an untouched cell) and resolves the
/// result: per-arm weight dominance, greater dash count, the special flag
/// of `key_1`, then bold escalation of double arms, then the table lookup.
/// Returns the resolved glyph together with the merged descriptor that the
/// caller stores back into the cell.
pub fn select_box_character(key_1: BoxCharacterKey, key_2: Option<BoxCharacterKey>) -> (r: (char, BoxCharacterKey))
    ensures
        r.1 == merged_key(key_1, stored_or_zero(key_2)),
        r.0 == glyph_of(r.1),
{
    let key_2 = match key_2 {
        Some(k) => k,
        None => BoxCharacterKey { up: 0, down: 0, left: 0, right: 0, dashes: 0, special: false },
    };

    let mut combined = BoxCharacterKey {
        up: if key_1.up == 3 || key_2.up == 3 { 3 } else if key_1.up >= key_2.up { key_1.up } else { key_2.up },
        down: if key_1.down == 3 || key_2.down == 3 { 3 } else if key_1.down >= key_2.down { key_1.down } else { key_2.down },
        left: if key_1.left == 3 || key_2.left == 3 { 3 } else if key_1.left >= key_2.left { key_1.left } else { key_2.left },
        right: if key_1.right == 3 || key_2.right == 3 { 3 } else if key_1.right >= key_2.right { key_1.right } else { key_2.right },
        dashes: if key_1.dashes >= key_2.dashes { key_1.dashes } else { key_2.dashes },
        special: key_1.special,
    };

    if combined.up == 3 || combined.down == 3 || combined.left == 3 || combined.right == 3 {
        if combined.up == 2 {
            combined.up = 3;
        }
        if combined.down == 2 {
            combined.down = 3;
        }
        if combined.left == 2 {
            combined.left = 3;
        }
        if combined.right == 2 {
            combined.right = 3;
        }
    }

    (lookup(combined), combined)
}

} // verus!
