//! A verified simulation engine for a grid snake game.
//!
//! The playing field is a fixed square grid. A snake occupies an ordered,
//! duplicate-free sequence of in-bounds cells, head first. Each tick the
//! head advances one cell in the current direction; running into a wall or
//! into the snake's own body ends the game, while landing on the food cell
//! grows the snake and scores a point. The engine here owns that state
//! machine; drawing and key handling live outside the library.

use vstd::prelude::*;

pub mod grid;
pub mod snake;
pub mod spawn;
pub mod engine;

verus! {

/// Hook for listing example invocations of the binary; there are none.
pub fn print_examples_cmd() {
}

} // verus!
