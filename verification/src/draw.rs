//! Drawing primitives: box outlines and straight lines.
//!
//! Every primitive follows one pattern per affected cell: synthesize the
//! local edge descriptor that this shape alone contributes to the cell,
//! merge it with the descriptor the grid already stores there, resolve the
//! merged descriptor to its glyph, record the glyph as a pending screen
//! write, and store the merged descriptor back into the grid.  The pending
//! writes are returned in the order the cells were visited, for an
//! external terminal collaborator to perform.
//!
//! Bounds are exclusive of their end coordinate.  Out-of-bounds or
//! malformed bounds are a contract violation by the caller: the
//! primitives exclude them by precondition instead of clamping or
//! failing at run time.

use vstd::prelude::*;

verus! {

use crate::descriptor::{BoxCharacterKey, merged_key};
use crate::glyphs::{glyph_of, select_box_character};
use crate::grid::TerminalGrid;

/// One pending screen write: place `glyph` at the given terminal
/// coordinates.
#[derive(Debug, PartialEq, Eq, Structural, Clone, Copy)]
pub struct CellWrite {
    pub column: u16,
    pub row: u16,
    pub glyph: char,
}

/// Whether a cell lies on the outline of the box with the given bounds
/// (end bounds exclusive).
pub open spec fn on_box_border(
    row: int,
    column: int,
    column_start: int,
    column_end: int,
    row_start: int,
    row_end: int,
) -> bool {
    &&& row_start <= row < row_end
    &&& column_start <= column < column_end
    &&& (row == row_start || row == row_end - 1 || column == column_start || column
        == column_end - 1)
}

/// The local descriptor a box outline contributes to one of its cells:
/// corners receive the two adjoining directions, edge cells the two
/// in-line directions, and anything else nothing at all.
pub open spec fn box_key(
    row: int,
    column: int,
    column_start: int,
    column_end: int,
    row_start: int,
    row_end: int,
    style: u8,
) -> BoxCharacterKey {
    if row == row_start && column == column_start {
        BoxCharacterKey { up: 0, down: style, left: 0, right: style, dashes: 0, special: false }
    } else if row == row_start && column == column_end - 1 {
        BoxCharacterKey { up: 0, down: style, left: style, right: 0, dashes: 0, special: false }
    } else if row == row_start {
        BoxCharacterKey { up: 0, down: 0, left: style, right: style, dashes: 0, special: false }
    } else if row == row_end - 1 && column == column_start {
        BoxCharacterKey { up: style, down: 0, left: 0, right: style, dashes: 0, special: false }
    } else if row == row_end - 1 && column == column_end - 1 {
        BoxCharacterKey { up: style, down: 0, left: style, right: 0, dashes: 0, special: false }
    } else if row == row_end - 1 {
        BoxCharacterKey { up: 0, down: 0, left: style, right: style, dashes: 0, special: false }
    } else if column == column_start || column == column_end - 1 {
        BoxCharacterKey { up: style, down: style, left: 0, right: 0, dashes: 0, special: false }
    } else {
        BoxCharacterKey { up: 0, down: 0, left: 0, right: 0, dashes: 0, special: false }
    }
}

/// The pending write produced when `key` lands on cell `(row, column)` of
/// a grid whose cells currently hold the descriptors in `g`.
pub open spec fn write_of(
    g: Seq<Seq<BoxCharacterKey>>,
    row: int,
    column: int,
    key: BoxCharacterKey,
) -> CellWrite {
    CellWrite {
        column: column as u16,
        row: row as u16,
        glyph: glyph_of(merged_key(key, g[row][column])),
    }
}

/// The writes a box outline produces on one of its rows, in left-to-right
/// order: the top and bottom rows touch every column, the rows in between
/// only the two outline columns.
pub open spec fn box_row_writes(
    g: Seq<Seq<BoxCharacterKey>>,
    row: int,
    column_start: int,
    column_end: int,
    row_start: int,
    row_end: int,
    style: u8,
) -> Seq<CellWrite> {
    if row == row_start || row == row_end - 1 {
        Seq::new(
            (column_end - column_start) as nat,
            |j: int|
                write_of(
                    g,
                    row,
                    column_start + j,
                    box_key(row, column_start + j, column_start, column_end, row_start, row_end, style),
                ),
        )
    } else if column_end - column_start == 1 {
        seq![
            write_of(
                g,
                row,
                column_start,
                box_key(row, column_start, column_start, column_end, row_start, row_end, style),
            ),
        ]
    } else {
        seq![
            write_of(
                g,
                row,
                column_start,
                box_key(row, column_start, column_start, column_end, row_start, row_end, style),
            ),
            write_of(
                g,
                row,
                column_end - 1,
                box_key(row, column_end - 1, column_start, column_end, row_start, row_end, style),
            ),
        ]
    }
}

/// The writes a box outline produces on the rows from `row` down to its
/// bottom row, in top-to-bottom order.
pub open spec fn box_writes_from(
    g: Seq<Seq<BoxCharacterKey>>,
    row: int,
    column_start: int,
    column_end: int,
    row_start: int,
    row_end: int,
    style: u8,
) -> Seq<CellWrite>
    decreases row_end - row,
{
    if row < row_end {
        box_row_writes(g, row, column_start, column_end, row_start, row_end, style)
            + box_writes_from(g, row + 1, column_start, column_end, row_start, row_end, style)
    } else {
        Seq::empty()
    }
}

/// All writes a box outline produces, top-to-bottom and left-to-right,
/// each resolved against the descriptors the grid held before the box was
/// drawn (the outline never visits a cell twice).
pub open spec fn box_writes(
    g: Seq<Seq<BoxCharacterKey>>,
    column_start: int,
    column_end: int,
    row_start: int,
    row_end: int,
    style: u8,
) -> Seq<CellWrite> {
    box_writes_from(g, row_start, column_start, column_end, row_start, row_end, style)
}

/// Applies one drawing instruction to one cell: merge against the stored
/// descriptor, store the result, and report the resolved glyph as a
/// pending write.
fn stamp(terminal: &mut TerminalGrid, row: u16, column: u16, key: BoxCharacterKey) -> (w: CellWrite)
    requires
        old(terminal).wf(),
        row < old(terminal).height,
        column < old(terminal).width,
    ensures
        final(terminal).wf(),
        final(terminal).width == old(terminal).width,
        final(terminal).height == old(terminal).height,
        final(terminal)@ == old(terminal)@.update(
            row as int,
            old(terminal)@[row as int].update(
                column as int,
                merged_key(key, old(terminal)@[row as int][column as int]),
            ),
        ),
        w == write_of(old(terminal)@, row as int, column as int, key),
{
    let existing = terminal.cell(row, column);
    let (glyph, merged) = select_box_character(key, Some(existing));
    terminal.set_cell(row, column, merged);
    CellWrite { column, row, glyph }
}

/// Draws a rectangle outline with the given (exclusive-end) bounds and
/// weight.  Corner cells receive the two adjoining directions at that
/// weight, edge cells the two in-line directions; interior cells are left
/// untouched.  Every affected cell merges with what was already drawn
/// there, so a box composes with earlier shapes instead of erasing them.
pub fn draw_box(
    terminal: &mut TerminalGrid,
    column_start: u16,
    column_end: u16,
    row_start: u16,
    row_end: u16,
    style: u8,
) -> (writes: Vec<CellWrite>)
    requires
        old(terminal).wf(),
        column_start < column_end,
        row_start < row_end,
        column_end <= old(terminal).width,
        row_end <= old(terminal).height,
        style <= 3,
    ensures
        final(terminal).wf(),
        final(terminal).width == old(terminal).width,
        final(terminal).height == old(terminal).height,
        forall|r: int, c: int|
            0 <= r < old(terminal).height && 0 <= c < old(terminal).width
                ==> (#[trigger] final(terminal)@[r][c]) == (
            if on_box_border(
                r,
                c,
                column_start as int,
                column_end as int,
                row_start as int,
                row_end as int,
            ) {
                merged_key(
                    box_key(
                        r,
                        c,
                        column_start as int,
                        column_end as int,
                        row_start as int,
                        row_end as int,
                        style,
                    ),
                    old(terminal)@[r][c],
                )
            } else {
                old(terminal)@[r][c]
            }),
        writes@ == box_writes(
            old(terminal)@,
            column_start as int,
            column_end as int,
            row_start as int,
            row_end as int,
            style,
        ),
{
    let ghost g0 = old(terminal)@;
    let mut writes: Vec<CellWrite> = Vec::new();
    let mut row: u16 = row_start;
    proof {
        assert(box_writes_from(
            g0,
            row_start as int,
            column_start as int,
            column_end as int,
            row_start as int,
            row_end as int,
            style,
        ) =~= writes@ + box_writes_from(
            g0,
            row as int,
            column_start as int,
            column_end as int,
            row_start as int,
            row_end as int,
            style,
        ));
    }
    while row < row_end
        invariant
            terminal.wf(),
            terminal.width == old(terminal).width,
            terminal.height == old(terminal).height,
            g0 == old(terminal)@,
            row_start <= row <= row_end,
            column_start < column_end,
            row_start < row_end,
            column_end <= terminal.width,
            row_end <= terminal.height,
            style <= 3,
            forall|r: int, c: int|
                0 <= r < terminal.height && 0 <= c < terminal.width
                    ==> (#[trigger] terminal@[r][c]) == (
                if r < row && on_box_border(
                    r,
                    c,
                    column_start as int,
                    column_end as int,
                    row_start as int,
                    row_end as int,
                ) {
                    merged_key(
                        box_key(
                            r,
                            c,
                            column_start as int,
                            column_end as int,
                            row_start as int,
                            row_end as int,
                            style,
                        ),
                        g0[r][c],
                    )
                } else {
                    g0[r][c]
                }),
            box_writes_from(
                g0,
                row_start as int,
                column_start as int,
                column_end as int,
                row_start as int,
                row_end as int,
                style,
            ) == writes@ + box_writes_from(
                g0,
                row as int,
                column_start as int,
                column_end as int,
                row_start as int,
                row_end as int,
                style,
            ),
        decreases row_end - row,
    {
        let ghost writes_before = writes@;
        if row == row_start || row == row_end - 1 {
            let mut column: u16 = column_start;
            while column < column_end
                invariant
                    terminal.wf(),
                    terminal.width == old(terminal).width,
                    terminal.height == old(terminal).height,
                    g0 == old(terminal)@,
                    row_start <= row < row_end,
                    row == row_start || row == row_end - 1,
                    column_start <= column <= column_end,
                    column_start < column_end,
                    column_end <= terminal.width,
                    row_end <= terminal.height,
                    style <= 3,
                    forall|r: int, c: int|
                        0 <= r < terminal.height && 0 <= c < terminal.width
                            ==> (#[trigger] terminal@[r][c]) == (
                        if (r < row || (r == row && c < column)) && on_box_border(
                            r,
                            c,
                            column_start as int,
                            column_end as int,
                            row_start as int,
                            row_end as int,
                        ) {
                            merged_key(
                                box_key(
                                    r,
                                    c,
                                    column_start as int,
                                    column_end as int,
                                    row_start as int,
                                    row_end as int,
                                    style,
                                ),
                                g0[r][c],
                            )
                        } else {
                            g0[r][c]
                        }),
                    writes@ == writes_before + Seq::new(
                        (column - column_start) as nat,
                        |j: int|
                            write_of(
                                g0,
                                row as int,
                                column_start + j,
                                box_key(
                                    row as int,
                                    column_start + j,
                                    column_start as int,
                                    column_end as int,
                                    row_start as int,
                                    row_end as int,
                                    style,
                                ),
                            ),
                    ),
                decreases column_end - column,
            {
                let key = box_cell_key(row, column, column_start, column_end, row_start, row_end, style);
                let w = stamp(terminal, row, column, key);
                writes.push(w);
                proof {
                    assert(writes@ =~= writes_before + Seq::new(
                        (column + 1 - column_start) as nat,
                        |j: int|
                            write_of(
                                g0,
                                row as int,
                                column_start + j,
                                box_key(
                                    row as int,
                                    column_start + j,
                                    column_start as int,
                                    column_end as int,
                                    row_start as int,
                                    row_end as int,
                                    style,
                                ),
                            ),
                    ));
                }
                column = column + 1;
            }
            proof {
                assert(writes@ =~= writes_before + box_row_writes(
                    g0,
                    row as int,
                    column_start as int,
                    column_end as int,
                    row_start as int,
                    row_end as int,
                    style,
                ));
            }
        } else {
            let key_left = box_cell_key(row, column_start, column_start, column_end, row_start, row_end, style);
            let w_left = stamp(terminal, row, column_start, key_left);
            writes.push(w_left);
            if column_end - column_start > 1 {
                let key_right = box_cell_key(row, column_end - 1, column_start, column_end, row_start, row_end, style);
                let w_right = stamp(terminal, row, column_end - 1, key_right);
                writes.push(w_right);
            }
            proof {
                assert(writes@ =~= writes_before + box_row_writes(
                    g0,
                    row as int,
                    column_start as int,
                    column_end as int,
                    row_start as int,
                    row_end as int,
                    style,
                ));
            }
        }
        row = row + 1;
    }
    writes
}

/// The local descriptor a vertical line contributes to the cell at `row`:
/// both in-line directions at the line's weight, except that the first
/// cell omits the upward arm and the last cell the downward arm, so no
/// stub dangles past the line's own extent.
pub open spec fn vline_key(row: int, row_start: int, row_end: int, style: u8) -> BoxCharacterKey {
    BoxCharacterKey {
        up: if row == row_start { 0 } else { style },
        down: if row != row_start && row == row_end - 1 { 0 } else { style },
        left: 0,
        right: 0,
        dashes: 0,
        special: false,
    }
}

/// The local descriptor a horizontal line contributes to the cell at
/// `column`, with the same endpoint treatment as `vline_key`.
pub open spec fn hline_key(column: int, column_start: int, column_end: int, style: u8) -> BoxCharacterKey {
    BoxCharacterKey {
        up: 0,
        down: 0,
        left: if column == column_start { 0 } else { style },
        right: if column != column_start && column == column_end - 1 { 0 } else { style },
        dashes: 0,
        special: false,
    }
}

/// The writes of a vertical line from `row` down to its last cell, in
/// top-to-bottom order.
pub open spec fn vline_writes_from(
    g: Seq<Seq<BoxCharacterKey>>,
    column: int,
    row: int,
    row_start: int,
    row_end: int,
    style: u8,
) -> Seq<CellWrite>
    decreases row_end - row,
{
    if row < row_end {
        seq![write_of(g, row, column, vline_key(row, row_start, row_end, style))]
            + vline_writes_from(g, column, row + 1, row_start, row_end, style)
    } else {
        Seq::empty()
    }
}

/// The writes of a horizontal line from `column` to its last cell, in
/// left-to-right order.
pub open spec fn hline_writes_from(
    g: Seq<Seq<BoxCharacterKey>>,
    row: int,
    column: int,
    column_start: int,
    column_end: int,
    style: u8,
) -> Seq<CellWrite>
    decreases column_end - column,
{
    if column < column_end {
        seq![write_of(g, row, column, hline_key(column, column_start, column_end, style))]
            + hline_writes_from(g, row, column + 1, column_start, column_end, style)
    } else {
        Seq::empty()
    }
}

/// All writes a straight line produces: the cells of its single axis in
/// order, each resolved against the descriptors the grid held before the
/// line was drawn.  A request that is neither vertical (equal columns)
/// nor horizontal (equal rows) produces nothing; equal columns take
/// precedence, as a degenerate request spanning no cell at all.
pub open spec fn line_writes(
    g: Seq<Seq<BoxCharacterKey>>,
    column_start: int,
    column_end: int,
    row_start: int,
    row_end: int,
    style: u8,
) -> Seq<CellWrite> {
    if column_start == column_end {
        vline_writes_from(g, column_start, row_start, row_start, row_end, style)
    } else if row_start == row_end {
        hline_writes_from(g, row_start, column_start, column_start, column_end, style)
    } else {
        Seq::empty()
    }
}

/// The descriptor cell `(r, c)` holds after a straight line with the
/// given bounds lands on a grid whose cells held `g`: cells on the line
/// merge its local contribution, all others keep their old value.
pub open spec fn line_cell(
    g: Seq<Seq<BoxCharacterKey>>,
    r: int,
    c: int,
    column_start: int,
    column_end: int,
    row_start: int,
    row_end: int,
    style: u8,
) -> BoxCharacterKey {
    if column_start == column_end && c == column_start && row_start <= r < row_end {
        merged_key(vline_key(r, row_start, row_end, style), g[r][c])
    } else if column_start != column_end && row_start == row_end && r == row_start
        && column_start <= c < column_end {
        merged_key(hline_key(c, column_start, column_end, style), g[r][c])
    } else {
        g[r][c]
    }
}

/// Draws a straight single-axis run: vertical when the column bounds
/// coincide, horizontal when the row bounds do (end bounds exclusive).
/// The two endpoint cells omit the outward-facing direction, and every
/// cell merges with what was already drawn there.
pub fn draw_line(
    terminal: &mut TerminalGrid,
    column_start: u16,
    column_end: u16,
    row_start: u16,
    row_end: u16,
    style: u8,
) -> (writes: Vec<CellWrite>)
    requires
        old(terminal).wf(),
        column_start == column_end || row_start == row_end,
        column_start <= column_end,
        row_start <= row_end,
        column_end <= old(terminal).width,
        row_end <= old(terminal).height,
        column_start == column_end && row_start < row_end ==> column_start < old(
            terminal,
        ).width,
        row_start == row_end && column_start < column_end ==> row_start < old(
            terminal,
        ).height,
        style <= 3,
    ensures
        final(terminal).wf(),
        final(terminal).width == old(terminal).width,
        final(terminal).height == old(terminal).height,
        forall|r: int, c: int|
            0 <= r < old(terminal).height && 0 <= c < old(terminal).width
                ==> (#[trigger] final(terminal)@[r][c]) == line_cell(
                old(terminal)@,
                r,
                c,
                column_start as int,
                column_end as int,
                row_start as int,
                row_end as int,
                style,
            ),
        writes@ == line_writes(
            old(terminal)@,
            column_start as int,
            column_end as int,
            row_start as int,
            row_end as int,
            style,
        ),
{
    let ghost g0 = old(terminal)@;
    let mut writes: Vec<CellWrite> = Vec::new();
    if column_start == column_end {
        let mut row: u16 = row_start;
        proof {
            assert(line_writes(
                g0,
                column_start as int,
                column_end as int,
                row_start as int,
                row_end as int,
                style,
            ) =~= writes@ + vline_writes_from(
                g0,
                column_start as int,
                row as int,
                row_start as int,
                row_end as int,
                style,
            ));
        }
        while row < row_end
            invariant
                terminal.wf(),
                terminal.width == old(terminal).width,
                terminal.height == old(terminal).height,
                g0 == old(terminal)@,
                column_start == column_end,
                row_start <= row <= row_end,
                row_end <= terminal.height,
                row_start < row_end ==> column_start < terminal.width,
                style <= 3,
                forall|r: int, c: int|
                    0 <= r < terminal.height && 0 <= c < terminal.width
                        ==> (#[trigger] terminal@[r][c]) == (
                    if c == column_start && row_start <= r < row {
                        merged_key(
                            vline_key(r, row_start as int, row_end as int, style),
                            g0[r][c],
                        )
                    } else {
                        g0[r][c]
                    }),
                line_writes(
                    g0,
                    column_start as int,
                    column_end as int,
                    row_start as int,
                    row_end as int,
                    style,
                ) == writes@ + vline_writes_from(
                    g0,
                    column_start as int,
                    row as int,
                    row_start as int,
                    row_end as int,
                    style,
                ),
            decreases row_end - row,
        {
            let mut key = BoxCharacterKey {
                up: style,
                down: style,
                left: 0,
                right: 0,
                dashes: 0,
                special: false,
            };
            if row == row_start {
                key.up = 0;
            } else if row == row_end - 1 {
                key.down = 0;
            }
            proof {
                assert(key == vline_key(row as int, row_start as int, row_end as int, style));
            }
            let w = stamp(terminal, row, column_start, key);
            writes.push(w);
            row = row + 1;
        }
        writes
    } else {
        let mut column: u16 = column_start;
        proof {
            assert(line_writes(
                g0,
                column_start as int,
                column_end as int,
                row_start as int,
                row_end as int,
                style,
            ) =~= writes@ + hline_writes_from(
                g0,
                row_start as int,
                column as int,
                column_start as int,
                column_end as int,
                style,
            ));
        }
        while column < column_end
            invariant
                terminal.wf(),
                terminal.width == old(terminal).width,
                terminal.height == old(terminal).height,
                g0 == old(terminal)@,
                column_start != column_end,
                row_start == row_end,
                column_start <= column <= column_end,
                column_end <= terminal.width,
                column_start < column_end ==> row_start < terminal.height,
                style <= 3,
                forall|r: int, c: int|
                    0 <= r < terminal.height && 0 <= c < terminal.width
                        ==> (#[trigger] terminal@[r][c]) == (
                    if r == row_start && column_start <= c < column {
                        merged_key(
                            hline_key(c, column_start as int, column_end as int, style),
                            g0[r][c],
                        )
                    } else {
                        g0[r][c]
                    }),
                line_writes(
                    g0,
                    column_start as int,
                    column_end as int,
                    row_start as int,
                    row_end as int,
                    style,
                ) == writes@ + hline_writes_from(
                    g0,
                    row_start as int,
                    column as int,
                    column_start as int,
                    column_end as int,
                    style,
                ),
            decreases column_end - column,
        {
            let mut key = BoxCharacterKey {
                up: 0,
                down: 0,
                left: style,
                right: style,
                dashes: 0,
                special: false,
            };
            if column == column_start {
                key.left = 0;
            } else if column == column_end - 1 {
                key.right = 0;
            }
            proof {
                assert(key == hline_key(
                    column as int,
                    column_start as int,
                    column_end as int,
                    style,
                ));
            }
            let w = stamp(terminal, row_start, column, key);
            writes.push(w);
            column = column + 1;
        }
        writes
    }
}

/// Computes, in executable form, the local descriptor `box_key` assigns to
/// one outline cell.
fn box_cell_key(
    row: u16,
    column: u16,
    column_start: u16,
    column_end: u16,
    row_start: u16,
    row_end: u16,
    style: u8,
) -> (key: BoxCharacterKey)
    requires
        column_start < column_end,
        row_start < row_end,
    ensures
        key == box_key(
            row as int,
            column as int,
            column_start as int,
            column_end as int,
            row_start as int,
            row_end as int,
            style,
        ),
{
    let mut key = BoxCharacterKey { up: 0, down: 0, left: 0, right: 0, dashes: 0, special: false };
    if row == row_start && column == column_start {
        key.right = style;
        key.down = style;
    } else if row == row_start && column == column_end - 1 {
        key.left = style;
        key.down = style;
    } else if row == row_start {
        key.left = style;
        key.right = style;
    } else if row == row_end - 1 && column == column_start {
        key.right = style;
        key.up = style;
    } else if row == row_end - 1 && column == column_end - 1 {
        key.left = style;
        key.up = style;
    } else if row == row_end - 1 {
        key.left = style;
        key.right = style;
    } else if column == column_start || column == column_end - 1 {
        key.up = style;
        key.down = style;
    }
    key
}

} // verus!
