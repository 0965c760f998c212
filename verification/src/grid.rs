//! The terminal grid: one edge descriptor per screen cell.
//!
//! The grid is the only mutable state of the rendering core.  It is
//! allocated at the terminal's current dimensions, zero-filled, and fully
//! reallocated (never resized in place) whenever the dimensions change;
//! drawing primitives issued after a reallocation start from a blank
//! canvas.

use vstd::prelude::*;

verus! {

use crate::descriptor::{BoxCharacterKey, zero_key};
use crate::glyphs::glyph_of;

/// Tracks the resolved edge descriptor of every cell on the terminal, so
/// that later drawing operations can merge with earlier ones instead of
/// overwriting them.
pub struct TerminalGrid {
    pub width: u16,
    pub height: u16,
    pub grid: Vec<Vec<BoxCharacterKey>>,
}

impl View for TerminalGrid {
    type V = Seq<Seq<BoxCharacterKey>>;

    open spec fn view(&self) -> Seq<Seq<BoxCharacterKey>> {
        self.grid@.map_values(|row: Vec<BoxCharacterKey>| row@)
    }
}

impl TerminalGrid {
    /// The stored rows match the advertised dimensions.
    pub open spec fn wf(&self) -> bool {
        &&& self@.len() == self.height
        &&& forall|r: int| 0 <= r < self@.len() ==> (#[trigger] self@[r]).len() == self.width
    }

    /// Reads the descriptor currently stored for one cell.
    pub fn cell(&self, row: u16, column: u16) -> (key: BoxCharacterKey)
        requires
            self.wf(),
            row < self.height,
            column < self.width,
        ensures
            key == self@[row as int][column as int],
    {
        proof {
            assert(self@.len() == self.grid@.len());
            assert(self@[row as int] == self.grid@[row as int]@);
        }
        self.grid[row as usize][column as usize]
    }

    /// Stores a resolved descriptor back into one cell, replacing the
    /// previous value.
    pub(crate) fn set_cell(&mut self, row: u16, column: u16, key: BoxCharacterKey)
        requires
            old(self).wf(),
            row < old(self).height,
            column < old(self).width,
        ensures
            final(self).wf(),
            final(self).width == old(self).width,
            final(self).height == old(self).height,
            final(self)@ == old(self)@.update(
                row as int,
                old(self)@[row as int].update(column as int, key),
            ),
    {
        proof {
            assert(self@.len() == self.grid@.len());
            assert(self@[row as int] == self.grid@[row as int]@);
        }
        self.grid[row as usize][column as usize] = key;
        proof {
            assert(self@ =~~= old(self)@.update(
                row as int,
                old(self)@[row as int].update(column as int, key),
            ));
        }
    }
}

/// Allocates a grid for the given terminal dimensions, every cell set to
/// the zero descriptor, which resolves to the blank glyph.  Reallocation
/// after a dimension change goes through this same constructor, so every
/// previously drawn descriptor is discarded.
pub fn initialize(width: u16, height: u16) -> (terminal: TerminalGrid)
    ensures
        terminal.wf(),
        terminal.width == width,
        terminal.height == height,
        forall|r: int, c: int|
            0 <= r < height && 0 <= c < width ==> terminal@[r][c] == zero_key(),
        forall|r: int, c: int|
            0 <= r < height && 0 <= c < width ==> glyph_of(#[trigger] terminal@[r][c]) == ' ',
{
    let mut grid: Vec<Vec<BoxCharacterKey>> = Vec::new();
    let mut row: u16 = 0;
    while row < height
        invariant
            row <= height,
            grid@.len() == row,
            forall|r: int| 0 <= r < row ==> (#[trigger] grid@[r])@.len() == width,
            forall|r: int, c: int|
                0 <= r < row && 0 <= c < width ==> (#[trigger] grid@[r]@[c]) == zero_key(),
        decreases height - row,
    {
        let mut row_vec: Vec<BoxCharacterKey> = Vec::new();
        let mut column: u16 = 0;
        while column < width
            invariant
                column <= width,
                row_vec@.len() == column,
                forall|c: int| 0 <= c < column ==> (#[trigger] row_vec@[c]) == zero_key(),
            decreases width - column,
        {
            row_vec.push(
                BoxCharacterKey { up: 0, down: 0, left: 0, right: 0, dashes: 0, special: false },
            );
            column = column + 1;
        }
        grid.push(row_vec);
        row = row + 1;
    }
    TerminalGrid { width, height, grid }
}

} // verus!
