//! Food placement: rejection sampling over the grid.
//!
//! A fresh food cell is drawn uniformly at random and rejected while it
//! lands on the snake. Random draws are capped; if every draw was rejected
//! the spawner falls back to a deterministic scan of the grid, so that it
//! terminates even against unlucky randomness. Only when the snake covers
//! the whole grid is there no cell to hand out.

use vstd::prelude::*;

use rand::Rng;

use crate::grid::{Cell, GRID_SIZE, in_bounds_spec};
use crate::snake::SnakeBody;

verus! {

/// How many random draws are attempted before scanning deterministically.
pub const SPAWN_ATTEMPTS: usize = 64;

/// The snake covers every cell of the playing field.
pub open spec fn grid_full(s: Seq<Cell>) -> bool {
    forall|c: Cell| in_bounds_spec(c) ==> s.contains(c)
}

/// Relies on rand's `Rng::random_range` over `0..GRID_SIZE` (uniform
/// sampling within a non-empty half-open range): each coordinate of the
/// returned cell is below `GRID_SIZE`. Nothing more is assumed of a
/// random draw.
#[verifier::external_body]
fn random_cell() -> (c: Cell)
    ensures
        in_bounds_spec(c),
{
    let mut rng = rand::rng();
    let x = rng.random_range(0..GRID_SIZE);
    let y = rng.random_range(0..GRID_SIZE);
    Cell { x, y }
}

/// Choose a food cell that the snake does not occupy: first by bounded
/// rejection sampling, then by scanning the grid. Returns `None` exactly
/// when the snake occupies the entire grid.
pub fn spawn(body: &SnakeBody) -> (r: Option<Cell>)
    ensures
        match r {
            Some(c) => in_bounds_spec(c) && !body@.contains(c),
            None => grid_full(body@),
        },
{
    let mut attempt: usize = 0;
    while attempt < SPAWN_ATTEMPTS
        invariant
            attempt <= SPAWN_ATTEMPTS,
        decreases SPAWN_ATTEMPTS - attempt,
    {
        let c = random_cell();
        if !body.occupies(c) {
            return Some(c);
        }
        attempt += 1;
    }

    let mut x: usize = 0;
    while x < GRID_SIZE
        invariant
            x <= GRID_SIZE,
            forall|c: Cell| in_bounds_spec(c) && c.x < x ==> body@.contains(c),
        decreases GRID_SIZE - x,
    {
        let mut y: usize = 0;
        while y < GRID_SIZE
            invariant
                x < GRID_SIZE,
                y <= GRID_SIZE,
                forall|c: Cell| in_bounds_spec(c) && c.x < x ==> body@.contains(c),
                forall|c: Cell| in_bounds_spec(c) && c.x == x && c.y < y ==> body@.contains(c),
            decreases GRID_SIZE - y,
        {
            let c = Cell { x, y };
            if !body.occupies(c) {
                return Some(c);
            }
            y += 1;
        }
        x += 1;
    }
    None
}

} // verus!
