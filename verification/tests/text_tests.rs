use boxgrid::draw::CellWrite;
use boxgrid::text::draw_text;

fn w(column: u16, row: u16, glyph: char) -> CellWrite {
    CellWrite { column, row, glyph }
}

#[test]
fn text_wraps_at_space_boundary() {
    // "ABC" plus its trailing space fills 4 of 5 columns; "DEF" with its
    // space would overflow, so it moves to the second row.
    let writes = draw_text(0, 5, 0, 2, "ABC DEF");
    assert_eq!(
        writes,
        vec![
            w(0, 0, 'A'),
            w(1, 0, 'B'),
            w(2, 0, 'C'),
            w(3, 0, ' '),
            w(0, 1, 'D'),
            w(1, 1, 'E'),
            w(2, 1, 'F'),
            w(3, 1, ' '),
        ]
    );
}

#[test]
fn text_truncates_at_row_budget() {
    // A one-row region drops everything past the first row.
    let writes = draw_text(0, 5, 0, 1, "ABC DEF");
    assert_eq!(writes, vec![w(0, 0, 'A'), w(1, 0, 'B'), w(2, 0, 'C'), w(3, 0, ' ')]);
}

#[test]
fn short_text_goes_out_unwrapped() {
    // Shorter than the column span: the string is written as it is,
    // spaces included, with no trailing space added.
    let writes = draw_text(3, 9, 2, 3, "AB CD");
    assert_eq!(
        writes,
        vec![w(3, 2, 'A'), w(4, 2, 'B'), w(5, 2, ' '), w(6, 2, 'C'), w(7, 2, 'D')]
    );
}

#[test]
fn wrapping_respects_region_origin() {
    let writes = draw_text(10, 14, 5, 8, "no ok");
    // Span is 4 columns: "no " fills 3, "ok " would need 3 more.
    assert_eq!(
        writes,
        vec![
            w(10, 5, 'n'),
            w(11, 5, 'o'),
            w(12, 5, ' '),
            w(10, 6, 'o'),
            w(11, 6, 'k'),
            w(12, 6, ' '),
        ]
    );
}

#[test]
fn empty_text_emits_nothing() {
    let writes = draw_text(0, 5, 0, 2, "");
    assert_eq!(writes, vec![]);
}

#[test]
fn zero_height_region_emits_nothing_in_wrap_mode() {
    let writes = draw_text(0, 2, 3, 3, "abc def");
    assert_eq!(writes, vec![]);
}
