//! A text-mode rendering core built on Unicode box-drawing characters.
//!
//! The library models a terminal as a grid of edge descriptors, one per
//! cell.  Drawing primitives (box outlines, straight lines, clipped text)
//! compose non-destructively: each primitive merges its local contribution
//! with whatever was already drawn on a cell, resolves the combined
//! descriptor to a single glyph, and reports the glyph as a pending screen
//! write for an external terminal collaborator to perform.

use vstd::prelude::*;

pub mod chat;
pub mod descriptor;
pub mod draw;
pub mod events;
pub mod glyphs;
pub mod grid;
pub mod text;

verus! {

/// Weight code for a single-stroke line arm.
pub const SINGLE: u8 = 1;

/// Weight code for a double-stroke line arm.
pub const DOUBLE: u8 = 2;

/// Weight code for a bold line arm.  Bold dominates every other weight
/// when two drawing operations meet on one cell.
pub const BOLD: u8 = 3;

} // verus!
