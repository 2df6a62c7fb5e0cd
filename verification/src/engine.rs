//! The simulation engine: a two-state machine (`Alive` / `Dead`) that owns
//! the whole world — snake body, food, heading, score and tick counter —
//! and advances it one tick at a time.
//!
//! Wall strikes and self-collisions are not errors: they are transitions
//! into the `Dead` state that leave body, food and score exactly as they
//! were at the moment of death. A tick while `Dead` changes nothing;
//! `restart_game` rebuilds the fixed initial world from scratch.

use vstd::prelude::*;

use crate::grid::{Cell, GRID_SIZE, in_bounds_spec};
use crate::snake::{
    SnakeBody, all_in_bounds, distinct_cells, lemma_absent, lemma_grow_preserves,
    lemma_prefix_preserves,
};
use crate::spawn::{grid_full, spawn};

verus! {

/// The snake's heading: the last committed direction of movement.
#[derive(Clone, Copy, Debug, PartialEq, Eq, Structural)]
pub enum Direction {
    Left,
    Right,
    Up,
    Down,
}

/// Whether the game is still running. `Dead` makes every tick a no-op
/// until the world is rebuilt by `restart_game`.
#[derive(Clone, Copy, Debug, PartialEq, Eq, Structural)]
pub enum GameStatus {
    Alive,
    Dead,
}

/// Where the snake starts after a (re)start.
pub open spec fn start_cell() -> Cell {
    Cell { x: 10, y: 10 }
}

/// Where the food starts after a (re)start.
pub open spec fn start_food() -> Cell {
    Cell { x: 12, y: 12 }
}

/// The cell one step from `c` in direction `d`, or `None` if that step
/// leaves the playing field.
pub open spec fn step_cell(c: Cell, d: Direction) -> Option<Cell> {
    match d {
        Direction::Up => if c.y == 0 {
            None
        } else {
            Some(Cell { x: c.x, y: (c.y - 1) as usize })
        },
        Direction::Down => if c.y + 1 >= GRID_SIZE {
            None
        } else {
            Some(Cell { x: c.x, y: (c.y + 1) as usize })
        },
        Direction::Left => if c.x == 0 {
            None
        } else {
            Some(Cell { x: (c.x - 1) as usize, y: c.y })
        },
        Direction::Right => if c.x + 1 >= GRID_SIZE {
            None
        } else {
            Some(Cell { x: (c.x + 1) as usize, y: c.y })
        },
    }
}

/// A step taken from an in-bounds cell lands in bounds whenever it stays
/// on the field at all.
pub proof fn lemma_step_in_bounds(c: Cell, d: Direction)
    requires
        in_bounds_spec(c),
        step_cell(c, d) is Some,
    ensures
        in_bounds_spec(step_cell(c, d)->0),
{
}

/// Runtime counterpart of `step_cell`.
pub fn step(c: Cell, d: Direction) -> (r: Option<Cell>)
    requires
        in_bounds_spec(c),
    ensures
        r == step_cell(c, d),
{
    match d {
        Direction::Up => if c.y == 0 {
            None
        } else {
            Some(Cell { x: c.x, y: c.y - 1 })
        },
        Direction::Down => if c.y + 1 >= GRID_SIZE {
            None
        } else {
            Some(Cell { x: c.x, y: c.y + 1 })
        },
        Direction::Left => if c.x == 0 {
            None
        } else {
            Some(Cell { x: c.x - 1, y: c.y })
        },
        Direction::Right => if c.x + 1 >= GRID_SIZE {
            None
        } else {
            Some(Cell { x: c.x + 1, y: c.y })
        },
    }
}

/// The whole game world. Renderers read it; only `advance` and
/// `restart_game` write it.
pub struct App {
    pub snake: SnakeBody,
    pub food: Cell,
    pub direction: Direction,
    pub status: GameStatus,
    pub points: u32,
    pub timer: u32,
}

impl App {
    /// Well-formedness of the world: the snake is never empty, stays on
    /// the field without overlapping itself, the food is on the field,
    /// and while the game runs the food is never under the snake.
    pub open spec fn wf(self) -> bool {
        &&& self.snake@.len() >= 1
        &&& all_in_bounds(self.snake@)
        &&& distinct_cells(self.snake@)
        &&& in_bounds_spec(self.food)
        &&& self.status is Alive ==> !self.snake@.contains(self.food)
    }

    /// The head cell of the snake.
    pub open spec fn head_cell(self) -> Cell {
        self.snake@[0]
    }

    /// The direction a tick adopts: the requested one if any, else the
    /// last committed one.
    pub open spec fn adopted(self, requested: Option<Direction>) -> Direction {
        match requested {
            Some(d) => d,
            None => self.direction,
        }
    }

    /// The tick's step in direction `d` would leave the playing field.
    pub open spec fn hits_wall(self, d: Direction) -> bool {
        step_cell(self.head_cell(), d) is None
    }

    /// The cell the head would move to (meaningful when not `hits_wall`).
    pub open spec fn candidate(self, d: Direction) -> Cell {
        step_cell(self.head_cell(), d)->0
    }

    /// The candidate head cell is already occupied by the body as it
    /// stands before the move.
    pub open spec fn hits_self(self, d: Direction) -> bool {
        !self.hits_wall(d) && self.snake@.contains(self.candidate(d))
    }

    /// The candidate head cell holds the food.
    pub open spec fn eats(self, d: Direction) -> bool {
        !self.hits_wall(d) && !self.hits_self(d) && self.candidate(d) == self.food
    }

    /// The candidate head cell is free and holds no food: an ordinary move.
    pub open spec fn moves_freely(self, d: Direction) -> bool {
        !self.hits_wall(d) && !self.hits_self(d) && !self.eats(d)
    }

    /// Two worlds agree on every observable field.
    pub open spec fn same_state(self, other: App) -> bool {
        &&& self.snake@ == other.snake@
        &&& self.food == other.food
        &&& self.direction == other.direction
        &&& self.status == other.status
        &&& self.points == other.points
        &&& self.timer == other.timer
    }

    /// The fixed initial world: a one-cell snake, food two cells away,
    /// heading up, nothing scored yet.
    pub fn new() -> (app: App)
        ensures
            app.wf(),
            app.snake@ == seq![start_cell()],
            app.snake@.len() == 1,
            app.food == start_food(),
            app.direction is Up,
            app.status is Alive,
            app.points == 0,
            app.timer == 0,
    {
        let snake = SnakeBody::new(Cell { x: 10, y: 10 });
        let app = App {
            snake,
            food: Cell { x: 12, y: 12 },
            direction: Direction::Up,
            status: GameStatus::Alive,
            points: 0,
            timer: 0,
        };
        proof {
            assert forall|i: int| 0 <= i < app.snake@.len() implies in_bounds_spec(
                app.snake@[i],
            ) by {
                assert(app.snake@[i] == start_cell());
            }
            assert forall|i: int| 0 <= i < app.snake@.len() implies app.snake@[i]
                != app.food by {
                assert(app.snake@[i] == start_cell());
            }
            lemma_absent(app.snake@, app.food);
        }
        app
    }

    /// Runtime check of `wf`, for callers that assemble a world by hand
    /// and need to test `advance`'s precondition before handing it over.
    pub fn is_well_formed(&self) -> (r: bool)
        ensures
            r == self.wf(),
    {
        let n = self.snake.len();
        if n == 0 {
            return false;
        }
        let mut i: usize = 0;
        while i < n
            invariant
                n == self.snake@.len(),
                i <= n,
                forall|p: int| 0 <= p < i ==> in_bounds_spec(self.snake@[p]),
            decreases n - i,
        {
            if !crate::grid::in_bounds(self.snake.cells[i]) {
                proof {
                    assert(!in_bounds_spec(self.snake@[i as int]));
                }
                return false;
            }
            i += 1;
        }
        let mut p: usize = 0;
        while p < n
            invariant
                n == self.snake@.len(),
                p <= n,
                forall|a: int, b: int| 0 <= a < b < n && a < p ==> self.snake@[a]
                    != self.snake@[b],
            decreases n - p,
        {
            let cp = self.snake.cells[p];
            let mut q: usize = p + 1;
            while q < n
                invariant
                    n == self.snake@.len(),
                    p < n,
                    p < q <= n,
                    cp == self.snake@[p as int],
                    forall|b: int| p < b < q ==> self.snake@[p as int] != self.snake@[b],
                decreases n - q,
            {
                if self.snake.cells[q] == cp {
                    proof {
                        assert(self.snake@[p as int] == self.snake@[q as int]);
                    }
                    return false;
                }
                q += 1;
            }
            p += 1;
        }
        if !crate::grid::in_bounds(self.food) {
            return false;
        }
        match self.status {
            GameStatus::Alive => !self.snake.occupies(self.food),
            GameStatus::Dead => true,
        }
    }

    /// Everything one tick may do to the world, as a relation between the
    /// state `o` before the call, the requested direction `req`, and the
    /// state `n` after it. Nondeterminism enters only through the freshly
    /// spawned food cell after a feeding.
    pub open spec fn tick_rel(o: App, req: Option<Direction>, n: App) -> bool {
        &&& o.status is Dead ==> o.same_state(n)
        &&& o.status is Alive ==> ({
            let d = o.adopted(req);
            &&& n.direction == d
            &&& n.timer == o.timer + 1
            &&& o.hits_wall(d) ==> n.status is Dead && n.snake@ == o.snake@ && n.food
                == o.food && n.points == o.points
            &&& o.hits_self(d) ==> n.status is Dead && n.snake@ == o.snake@ && n.food
                == o.food && n.points == o.points
            &&& o.eats(d) ==> ({
                &&& n.snake@ == seq![o.candidate(d)] + o.snake@
                &&& n.snake@.len() == o.snake@.len() + 1
                &&& n.points == o.points + 1
                &&& (n.status is Alive <==> !grid_full(n.snake@))
                &&& n.status is Dead ==> n.food == o.food
                &&& n.status is Alive ==> in_bounds_spec(n.food) && !n.snake@.contains(
                    n.food,
                )
            })
            &&& o.moves_freely(d) ==> ({
                &&& n.snake@ == (seq![o.candidate(d)] + o.snake@).drop_last()
                &&& n.snake@.len() == o.snake@.len()
                &&& n.points == o.points
                &&& n.food == o.food
                &&& n.status is Alive
            })
        })
    }

    /// Advance the world by one tick.
    ///
    /// While `Dead` this is a no-op. While `Alive` it adopts the requested
    /// direction (or keeps the last one), counts the tick, and then either
    /// dies at the wall, dies on its own body, feeds and grows, or simply
    /// moves. Death leaves body, food and score exactly as they were. A
    /// feeding that fills the whole grid leaves no cell for new food and
    /// ends the game instead.
    pub fn advance(&mut self, requested: Option<Direction>)
        requires
            old(self).wf(),
            old(self).status is Alive ==> old(self).timer < u32::MAX,
            old(self).status is Alive ==> old(self).points < u32::MAX,
        ensures
            final(self).wf(),
            App::tick_rel(*old(self), requested, *final(self)),
    {
        let ghost o = *old(self);
        match self.status {
            GameStatus::Dead => {},
            GameStatus::Alive => {
                self.timer = self.timer + 1;
                let d = match requested {
                    Some(dd) => dd,
                    None => self.direction,
                };
                self.direction = d;
                proof {
                    assert(d == o.adopted(requested));
                    assert(in_bounds_spec(o.snake@[0]));
                }
                let head = self.snake.head();
                match step(head, d) {
                    None => {
                        self.status = GameStatus::Dead;
                    },
                    Some(cand) => {
                        proof {
                            assert(cand == o.candidate(d));
                            lemma_step_in_bounds(o.head_cell(), d);
                        }
                        if self.snake.occupies(cand) {
                            self.status = GameStatus::Dead;
                        } else if cand == self.food {
                            self.snake.grow_head(cand);
                            self.points = self.points + 1;
                            proof {
                                lemma_grow_preserves(o.snake@, cand);
                            }
                            match spawn(&self.snake) {
                                Some(f) => {
                                    self.food = f;
                                },
                                None => {
                                    self.status = GameStatus::Dead;
                                },
                            }
                        } else {
                            self.snake.advance_head(cand);
                            proof {
                                let grown = seq![cand] + o.snake@;
                                lemma_grow_preserves(o.snake@, cand);
                                lemma_prefix_preserves(grown, grown.len() - 1);
                                assert forall|i: int| 0 <= i < self.snake@.len() implies
                                    self.snake@[i] != self.food by {
                                    if i > 0 {
                                        assert(self.snake@[i] == o.snake@[i - 1]);
                                        if self.snake@[i] == self.food {
                                            assert(o.snake@.contains(o.food));
                                        }
                                    }
                                }
                                lemma_absent(self.snake@, self.food);
                            }
                        }
                    },
                }
            },
        }
    }

    /// Rebuild the initial world in place, whatever the current state.
    pub fn restart_game(&mut self)
        ensures
            final(self).wf(),
            final(self).snake@ == seq![start_cell()],
            final(self).snake@.len() == 1,
            final(self).food == start_food(),
            final(self).direction is Up,
            final(self).status is Alive,
            final(self).points == 0,
            final(self).timer == 0,
            in_bounds_spec(final(self).snake@[0]),
            final(self).snake@[0] != final(self).food,
    {
        *self = App::new();
        proof {
            assert(self.snake@[0] == start_cell());
        }
    }
}

impl Default for App {
    /// Same fixed world as `App::new`.
    fn default() -> (app: Self)
        ensures
            app.wf(),
            app.snake@ == seq![start_cell()],
            app.food == start_food(),
            app.direction is Up,
            app.status is Alive,
            app.points == 0,
            app.timer == 0,
    {
        App::new()
    }
}

/// One abstract command at the engine's boundary, as the input layer
/// hands them over: a requested heading, a restart, or a quit.
#[derive(Clone, Copy, Debug, PartialEq, Eq, Structural)]
pub enum Command {
    MoveUp,
    MoveDown,
    MoveLeft,
    MoveRight,
    Restart,
    Quit,
}

/// The heading a movement command requests, if it requests one.
pub open spec fn command_direction(cmd: Command) -> Option<Direction> {
    match cmd {
        Command::MoveUp => Some(Direction::Up),
        Command::MoveDown => Some(Direction::Down),
        Command::MoveLeft => Some(Direction::Left),
        Command::MoveRight => Some(Direction::Right),
        Command::Restart => None,
        Command::Quit => None,
    }
}

impl App {
    /// Feed one abstract command into the engine: a movement command
    /// ticks the world in that direction, `Restart` rebuilds it, and
    /// `Quit` touches nothing and asks the caller to stop.
    pub fn apply_command(&mut self, cmd: Command) -> (quit: bool)
        requires
            old(self).wf(),
            old(self).status is Alive ==> old(self).timer < u32::MAX,
            old(self).status is Alive ==> old(self).points < u32::MAX,
        ensures
            final(self).wf(),
            quit <==> cmd is Quit,
            cmd is Quit ==> old(self).same_state(*final(self)),
            cmd is Restart ==> final(self).status is Alive && final(self).points == 0
                && final(self).timer == 0 && final(self).snake@ == seq![start_cell()]
                && final(self).food == start_food() && final(self).direction is Up,
            cmd !is Restart && cmd !is Quit ==> App::tick_rel(
                *old(self),
                command_direction(cmd),
                *final(self),
            ),
    {
        match cmd {
            Command::MoveUp => {
                self.advance(Some(Direction::Up));
                false
            },
            Command::MoveDown => {
                self.advance(Some(Direction::Down));
                false
            },
            Command::MoveLeft => {
                self.advance(Some(Direction::Left));
                false
            },
            Command::MoveRight => {
                self.advance(Some(Direction::Right));
                false
            },
            Command::Restart => {
                self.restart_game();
                false
            },
            Command::Quit => true,
        }
    }
}

/// Turning straight back onto the second body segment is always fatal for
/// a snake of length at least two: the candidate head cell is already
/// occupied, so by `advance`'s contract the tick ends in `Dead` with the
/// world otherwise untouched. No special rule is needed for reversal.
pub proof fn lemma_reversal_fatal(w: App, d: Direction)
    requires
        w.wf(),
        w.snake@.len() >= 2,
        step_cell(w.head_cell(), d) == Some(w.snake@[1]),
    ensures
        w.hits_self(d),
{
    assert(w.snake@.contains(w.snake@[1]));
}

/// From any cell on the field, the step off the grid — and with it, by
/// `advance`'s contract, death at the wall — happens exactly at the
/// matching boundary coordinate.
pub proof fn lemma_boundary_wall(w: App, d: Direction)
    requires
        w.wf(),
    ensures
        w.hits_wall(d) <==> (match d {
            Direction::Up => w.head_cell().y == 0,
            Direction::Down => w.head_cell().y == GRID_SIZE - 1,
            Direction::Left => w.head_cell().x == 0,
            Direction::Right => w.head_cell().x == GRID_SIZE - 1,
        }),
{
    assert(in_bounds_spec(w.snake@[0]));
}

} // verus!
