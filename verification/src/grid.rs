//! The playing-field geometry: a fixed square grid of cells addressed by
//! zero-based coordinates.

use vstd::prelude::*;

verus! {

/// Side length of the square playing field, in cells.
pub const GRID_SIZE: usize = 20;

/// One cell of the grid, identified by its column `x` and row `y`.
#[derive(Clone, Copy, Debug, PartialEq, Eq, Structural)]
pub struct Cell {
    pub x: usize,
    pub y: usize,
}

/// A cell lies on the playing field iff both coordinates are below
/// `GRID_SIZE` (they cannot be negative, being unsigned).
pub open spec fn in_bounds_spec(c: Cell) -> bool {
    c.x < GRID_SIZE && c.y < GRID_SIZE
}

/// Runtime in-bounds test; never fails.
pub fn in_bounds(c: Cell) -> (r: bool)
    ensures
        r == in_bounds_spec(c),
{
    c.x < GRID_SIZE && c.y < GRID_SIZE
}

} // verus!
