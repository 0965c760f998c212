use boxgrid::descriptor::BoxCharacterKey;
use boxgrid::glyphs::{lookup, select_box_character};

fn key(up: u8, down: u8, left: u8, right: u8, dashes: u8, special: bool) -> BoxCharacterKey {
    BoxCharacterKey { up, down, left, right, dashes, special }
}

#[test]
fn lookup_blank_for_zero_descriptor() {
    assert_eq!(lookup(key(0, 0, 0, 0, 0, false)), ' ');
}

#[test]
fn lookup_single_weight_family() {
    assert_eq!(lookup(key(0, 0, 1, 1, 0, false)), '─');
    assert_eq!(lookup(key(1, 1, 0, 0, 0, false)), '│');
    assert_eq!(lookup(key(0, 1, 0, 1, 0, false)), '┌');
    assert_eq!(lookup(key(0, 1, 1, 0, 0, false)), '┐');
    assert_eq!(lookup(key(1, 0, 0, 1, 0, false)), '└');
    assert_eq!(lookup(key(1, 0, 1, 0, 0, false)), '┘');
    assert_eq!(lookup(key(1, 1, 1, 1, 0, false)), '┼');
}

#[test]
fn lookup_double_and_bold_families() {
    assert_eq!(lookup(key(0, 0, 2, 2, 0, false)), '═');
    assert_eq!(lookup(key(2, 2, 0, 0, 0, false)), '║');
    assert_eq!(lookup(key(2, 2, 2, 2, 0, false)), '╬');
    assert_eq!(lookup(key(0, 0, 3, 3, 0, false)), '━');
    assert_eq!(lookup(key(3, 3, 3, 3, 0, false)), '╋');
    assert_eq!(lookup(key(0, 3, 0, 3, 0, false)), '┏');
}

#[test]
fn lookup_mixed_weight_junctions() {
    assert_eq!(lookup(key(0, 0, 1, 3, 0, false)), '╼');
    assert_eq!(lookup(key(3, 1, 0, 0, 0, false)), '╿');
    assert_eq!(lookup(key(0, 1, 0, 2, 0, false)), '╒');
    assert_eq!(lookup(key(2, 2, 1, 1, 0, false)), '╫');
    assert_eq!(lookup(key(0, 3, 3, 3, 0, false)), '┳');
    assert_eq!(lookup(key(3, 0, 3, 3, 0, false)), '┻');
}

#[test]
fn lookup_special_subset() {
    assert_eq!(lookup(key(1, 1, 0, 0, 0, true)), '╱');
    assert_eq!(lookup(key(0, 0, 1, 1, 0, true)), '╲');
    assert_eq!(lookup(key(1, 1, 1, 1, 0, true)), '╳');
    assert_eq!(lookup(key(0, 1, 0, 1, 0, true)), '╭');
    assert_eq!(lookup(key(0, 0, 1, 0, 0, true)), '╴');
    assert_eq!(lookup(key(0, 3, 0, 0, 0, true)), '╻');
}

#[test]
fn lookup_dashed_variants() {
    assert_eq!(lookup(key(0, 0, 1, 1, 2, true)), '╌');
    assert_eq!(lookup(key(0, 0, 1, 1, 3, true)), '┄');
    assert_eq!(lookup(key(0, 0, 1, 1, 4, true)), '┈');
    assert_eq!(lookup(key(0, 0, 3, 3, 2, true)), '╍');
    assert_eq!(lookup(key(1, 1, 0, 0, 3, true)), '┆');
    assert_eq!(lookup(key(3, 3, 0, 0, 4, true)), '┋');
}

#[test]
fn lookup_blank_outside_curated_set() {
    // A double arm meeting a single arm in line has no glyph.
    assert_eq!(lookup(key(2, 1, 0, 0, 0, false)), ' ');
    // Dash code 1 is not part of the alphabet.
    assert_eq!(lookup(key(1, 1, 1, 1, 1, false)), ' ');
    // The special subset has no double-weight entries.
    assert_eq!(lookup(key(2, 2, 2, 2, 0, true)), ' ');
    // Dashes exist only in the special subset.
    assert_eq!(lookup(key(0, 0, 1, 1, 2, false)), ' ');
    // Half-edges exist only in the special subset.
    assert_eq!(lookup(key(0, 1, 0, 0, 0, false)), ' ');
}

#[test]
fn merge_against_empty_cell_only_normalizes() {
    // No bold anywhere: the descriptor passes through untouched.
    let d = key(2, 0, 1, 0, 2, true);
    let with_none = select_box_character(d, None);
    let with_zero = select_box_character(d, Some(key(0, 0, 0, 0, 0, false)));
    assert_eq!(with_none, with_zero);
    assert_eq!(with_none.1, d);

    // A bold arm escalates the double arm even against an empty cell.
    let b = key(3, 2, 0, 0, 0, false);
    let merged = select_box_character(b, None);
    assert_eq!(merged.1, key(3, 3, 0, 0, 0, false));
    assert_eq!(merged.0, '┃');
}

#[test]
fn merge_symmetric_on_arms_asymmetric_on_special() {
    let a = key(1, 0, 2, 0, 2, true);
    let b = key(2, 1, 0, 3, 3, false);
    let ab = select_box_character(a, Some(b)).1;
    let ba = select_box_character(b, Some(a)).1;
    assert_eq!(ab.up, ba.up);
    assert_eq!(ab.down, ba.down);
    assert_eq!(ab.left, ba.left);
    assert_eq!(ab.right, ba.right);
    assert_eq!(ab.dashes, ba.dashes);
    // The newly issued instruction decides the glyph subset.
    assert!(ab.special);
    assert!(!ba.special);
}

#[test]
fn merge_escalates_doubles_next_to_bold() {
    let a = key(3, 0, 0, 0, 0, false);
    let b = key(0, 2, 1, 2, 0, false);
    let merged = select_box_character(a, Some(b)).1;
    // Doubles promote to bold, the single arm stays single.
    assert_eq!(merged, key(3, 3, 1, 3, 0, false));
}

#[test]
fn merge_total_and_never_mixes_double_with_bold() {
    for up in 0..=3u8 {
        for down in 0..=3u8 {
            for left in 0..=3u8 {
                for right in 0..=3u8 {
                    for dashes in 0..=4u8 {
                        for special in [false, true] {
                            let k = key(up, down, left, right, dashes, special);
                            let (_, merged) = select_box_character(k, None);
                            let any_bold = merged.up == 3
                                || merged.down == 3
                                || merged.left == 3
                                || merged.right == 3;
                            let any_double = merged.up == 2
                                || merged.down == 2
                                || merged.left == 2
                                || merged.right == 2;
                            assert!(!(any_bold && any_double));
                        }
                    }
                }
            }
        }
    }
}

#[test]
fn pure_double_cross_is_not_escalated() {
    // No bold anywhere: four double arms stay double and resolve to the
    // double cross, which the curated set carries.
    let vertical = key(2, 2, 0, 0, 0, false);
    let horizontal = key(0, 0, 2, 2, 0, false);
    let (glyph, merged) = select_box_character(vertical, Some(horizontal));
    assert_eq!(merged, key(2, 2, 2, 2, 0, false));
    assert_eq!(glyph, '╬');
}

#[test]
fn merge_prefers_greater_dash_count() {
    let sparse = key(0, 0, 1, 1, 2, true);
    let dense = key(0, 0, 1, 1, 4, true);
    assert_eq!(select_box_character(sparse, Some(dense)).1.dashes, 4);
    assert_eq!(select_box_character(dense, Some(sparse)).1.dashes, 4);
    assert_eq!(select_box_character(sparse, Some(dense)).0, '┈');
}
