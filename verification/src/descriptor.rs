//! The edge descriptor and the rule for merging two descriptors.
//!
//! An edge descriptor classifies the line segments that touch one terminal
//! cell from the four compass directions, together with a dash-subdivision
//! style and a flag selecting the alternate ("special") glyph subset of
//! diagonals, rounded corners and half-edges.

use vstd::prelude::*;

verus! {

/// The six-field classification of the line work on one terminal cell.
///
/// - `up`, `down`, `left`, `right`: the weight of the arm entering the cell
///   from that direction; 0 = none, 1 = single, 2 = double, 3 = bold.
/// - `dashes`: dash subdivision along the cell's single axis;
///   0 = none, 2 = single dash, 3 = double dash, 4 = triple dash.
/// - `special`: selects the alternate glyph subset (diagonals, rounded
///   corners, half-edges, dashed runs) instead of the square-cornered set.
#[derive(Debug, PartialEq, Eq, Structural, Clone, Copy)]
pub struct BoxCharacterKey {
    pub up: u8,
    pub down: u8,
    pub left: u8,
    pub right: u8,
    pub dashes: u8,
    pub special: bool,
}

/// The descriptor of an untouched cell: no arms, no dash, regular subset.
pub open spec fn zero_key() -> BoxCharacterKey {
    BoxCharacterKey { up: 0, down: 0, left: 0, right: 0, dashes: 0, special: false }
}

/// Combines the weights of one directional arm from two descriptors:
/// bold dominates outright, otherwise the numerically greater code wins
/// (double over single, single over none).
pub open spec fn merge_weight(a: u8, b: u8) -> u8 {
    if a == 3 || b == 3 {
        3
    } else if a >= b {
        a
    } else {
        b
    }
}

/// The field-by-field merge of a new drawing instruction (`primary`) with
/// the descriptor already stored on the cell (`secondary`): each arm by
/// weight dominance, the dash count by the greater subdivision, and the
/// special flag always from the new instruction.
pub open spec fn combine(primary: BoxCharacterKey, secondary: BoxCharacterKey) -> BoxCharacterKey {
    BoxCharacterKey {
        up: merge_weight(primary.up, secondary.up),
        down: merge_weight(primary.down, secondary.down),
        left: merge_weight(primary.left, secondary.left),
        right: merge_weight(primary.right, secondary.right),
        dashes: if primary.dashes >= secondary.dashes {
            primary.dashes
        } else {
            secondary.dashes
        },
        special: primary.special,
    }
}

/// Post-merge escalation: the glyph alphabet has no character that mixes a
/// double arm with a bold arm on one junction, so once any arm is bold,
/// every double arm is promoted to bold.  Arms at single or none, the dash
/// count and the special flag are untouched.
pub open spec fn normalize(k: BoxCharacterKey) -> BoxCharacterKey {
    if k.up == 3 || k.down == 3 || k.left == 3 || k.right == 3 {
        BoxCharacterKey {
            up: if k.up == 2 { 3 } else { k.up },
            down: if k.down == 2 { 3 } else { k.down },
            left: if k.left == 2 { 3 } else { k.left },
            right: if k.right == 2 { 3 } else { k.right },
            dashes: k.dashes,
            special: k.special,
        }
    } else {
        k
    }
}

/// The resolved descriptor after the drawing instruction `primary` lands on
/// a cell whose current descriptor is `secondary`.
pub open spec fn merged_key(primary: BoxCharacterKey, secondary: BoxCharacterKey) -> BoxCharacterKey {
    normalize(combine(primary, secondary))
}

/// Law: merging a descriptor against the empty cell only normalizes it.
/// Every field survives the per-field step unchanged, so the result is
/// exactly the bold-escalated form of the instruction itself.
pub proof fn lemma_merge_zero_is_normalize(d: BoxCharacterKey)
    ensures
        merged_key(d, zero_key()) == normalize(d),
{
}

/// Law: the merge is commutative on the four directional arms and on the
/// dash count, but not on the special flag, which is always taken from the
/// first (most recently issued) descriptor.
pub proof fn lemma_merge_symmetry(a: BoxCharacterKey, b: BoxCharacterKey)
    ensures
        merged_key(a, b).up == merged_key(b, a).up,
        merged_key(a, b).down == merged_key(b, a).down,
        merged_key(a, b).left == merged_key(b, a).left,
        merged_key(a, b).right == merged_key(b, a).right,
        merged_key(a, b).dashes == merged_key(b, a).dashes,
        merged_key(a, b).special == a.special,
        merged_key(b, a).special == b.special,
{
}

/// Law: whenever the per-field merge of `a` and `b` produces a bold arm in
/// some direction, every arm that resolved to double is replaced by bold in
/// the final result, while arms that resolved to single or none, the dash
/// count and the special flag pass through unchanged.
pub proof fn lemma_bold_escalation(a: BoxCharacterKey, b: BoxCharacterKey)
    ensures
        ({
            let c = combine(a, b);
            let m = merged_key(a, b);
            (c.up == 3 || c.down == 3 || c.left == 3 || c.right == 3) ==> {
                &&& m.up == (if c.up == 2 { 3u8 } else { c.up })
                &&& m.down == (if c.down == 2 { 3u8 } else { c.down })
                &&& m.left == (if c.left == 2 { 3u8 } else { c.left })
                &&& m.right == (if c.right == 2 { 3u8 } else { c.right })
            }
        }),
        combine(a, b).up <= 1 ==> merged_key(a, b).up == combine(a, b).up,
        combine(a, b).down <= 1 ==> merged_key(a, b).down == combine(a, b).down,
        combine(a, b).left <= 1 ==> merged_key(a, b).left == combine(a, b).left,
        combine(a, b).right <= 1 ==> merged_key(a, b).right == combine(a, b).right,
        merged_key(a, b).dashes == combine(a, b).dashes,
        merged_key(a, b).special == combine(a, b).special,
{
}

} // verus!
