use boxgrid::descriptor::BoxCharacterKey;
use boxgrid::draw::{draw_box, draw_line, CellWrite};
use boxgrid::glyphs::lookup;
use boxgrid::grid::initialize;
use boxgrid::{BOLD, DOUBLE, SINGLE};

fn key(up: u8, down: u8, left: u8, right: u8, dashes: u8, special: bool) -> BoxCharacterKey {
    BoxCharacterKey { up, down, left, right, dashes, special }
}

#[test]
fn initialize_fills_grid_with_blanks() {
    let terminal = initialize(4, 3);
    assert_eq!(terminal.width, 4);
    assert_eq!(terminal.height, 3);
    for row in 0..3u16 {
        for column in 0..4u16 {
            let cell = terminal.cell(row, column);
            assert_eq!(cell, key(0, 0, 0, 0, 0, false));
            assert_eq!(lookup(cell), ' ');
        }
    }
}

#[test]
fn reinitialize_discards_drawn_descriptors() {
    let mut terminal = initialize(6, 4);
    draw_box(&mut terminal, 0, 6, 0, 4, BOLD);
    assert_eq!(terminal.cell(0, 0), key(0, 3, 0, 3, 0, false));
    assert_eq!(lookup(terminal.cell(0, 0)), '┏');

    // A dimension change discards the old grid entirely.
    let terminal = initialize(5, 3);
    for row in 0..3u16 {
        for column in 0..5u16 {
            assert_eq!(lookup(terminal.cell(row, column)), ' ');
        }
    }
}

#[test]
fn box_outline_corners_edges_and_interior() {
    let mut terminal = initialize(12, 8);
    let writes = draw_box(&mut terminal, 0, 10, 0, 5, DOUBLE);

    assert_eq!(lookup(terminal.cell(0, 0)), '╔');
    assert_eq!(lookup(terminal.cell(0, 9)), '╗');
    assert_eq!(lookup(terminal.cell(4, 0)), '╚');
    assert_eq!(lookup(terminal.cell(4, 9)), '╝');
    assert_eq!(lookup(terminal.cell(0, 4)), '═');
    assert_eq!(lookup(terminal.cell(4, 4)), '═');
    assert_eq!(lookup(terminal.cell(2, 0)), '║');
    assert_eq!(lookup(terminal.cell(2, 9)), '║');
    // Interior cells are untouched.
    assert_eq!(terminal.cell(2, 4), key(0, 0, 0, 0, 0, false));
    // Cells outside the box are untouched.
    assert_eq!(terminal.cell(6, 11), key(0, 0, 0, 0, 0, false));

    // Top and bottom rows touch every column, the rows between only two.
    assert_eq!(writes.len(), 10 + 10 + 3 * 2);
    assert_eq!(writes[0], CellWrite { column: 0, row: 0, glyph: '╔' });
    assert_eq!(writes[9], CellWrite { column: 9, row: 0, glyph: '╗' });
}

#[test]
fn bold_line_across_double_box_escalates_crossing_cells() {
    let mut terminal = initialize(20, 10);
    draw_box(&mut terminal, 0, 10, 0, 5, DOUBLE);
    let writes = draw_line(&mut terminal, 5, 5, 0, 5, BOLD);

    // At the top edge the double arms escalate to bold around the
    // crossing bold arm; the merged descriptor has no double arm left.
    assert_eq!(terminal.cell(0, 5), key(0, 3, 3, 3, 0, false));
    assert_eq!(lookup(terminal.cell(0, 5)), '┳');
    assert_eq!(terminal.cell(4, 5), key(3, 0, 3, 3, 0, false));
    assert_eq!(lookup(terminal.cell(4, 5)), '┻');
    // Between the edges the line runs through untouched interior.
    assert_eq!(lookup(terminal.cell(2, 5)), '┃');

    assert_eq!(writes.len(), 5);
    assert_eq!(writes[0], CellWrite { column: 5, row: 0, glyph: '┳' });
    assert_eq!(writes[2], CellWrite { column: 5, row: 2, glyph: '┃' });
    assert_eq!(writes[4], CellWrite { column: 5, row: 4, glyph: '┻' });
}

#[test]
fn vertical_line_endpoints_have_no_stubs() {
    let mut terminal = initialize(8, 8);
    let writes = draw_line(&mut terminal, 2, 2, 1, 4, SINGLE);

    // The endpoint cells omit the outward direction; a bare half-edge
    // has no glyph in the regular subset, so they render blank.
    assert_eq!(terminal.cell(1, 2), key(0, 1, 0, 0, 0, false));
    assert_eq!(terminal.cell(2, 2), key(1, 1, 0, 0, 0, false));
    assert_eq!(terminal.cell(3, 2), key(1, 0, 0, 0, 0, false));
    assert_eq!(
        writes,
        vec![
            CellWrite { column: 2, row: 1, glyph: ' ' },
            CellWrite { column: 2, row: 2, glyph: '│' },
            CellWrite { column: 2, row: 3, glyph: ' ' },
        ]
    );
}

#[test]
fn horizontal_line_merges_with_vertical_line() {
    let mut terminal = initialize(10, 10);
    draw_line(&mut terminal, 4, 4, 0, 7, SINGLE);
    let writes = draw_line(&mut terminal, 1, 8, 3, 3, SINGLE);

    // Where the two single lines cross, the cell is a plain cross.
    assert_eq!(terminal.cell(3, 4), key(1, 1, 1, 1, 0, false));
    assert_eq!(lookup(terminal.cell(3, 4)), '┼');
    assert_eq!(writes[3], CellWrite { column: 4, row: 3, glyph: '┼' });
}
