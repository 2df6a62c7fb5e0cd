use snake_rat::engine::{App, Command, Direction, GameStatus};
use snake_rat::grid::Cell;
use snake_rat::snake::SnakeBody;

fn cell(x: usize, y: usize) -> Cell {
    Cell { x, y }
}

fn world(cells: Vec<Cell>, food: Cell, direction: Direction) -> App {
    App {
        snake: SnakeBody { cells },
        food,
        direction,
        status: GameStatus::Alive,
        points: 0,
        timer: 0,
    }
}

#[test]
fn scenario_straight_run() {
    let mut w = App::new();
    assert_eq!(w.snake.cells, vec![cell(10, 10)]);
    assert_eq!(w.food, cell(12, 12));
    w.advance(Some(Direction::Right));
    assert_eq!(w.snake.cells, vec![cell(11, 10)]);
    assert_eq!(w.status, GameStatus::Alive);
    w.advance(Some(Direction::Right));
    assert_eq!(w.snake.cells, vec![cell(12, 10)]);
    assert_eq!(w.status, GameStatus::Alive);
    assert_eq!(w.points, 0);
    assert_eq!(w.snake.len(), 1);
    assert_eq!(w.timer, 2);
}

#[test]
fn scenario_wall_strike_up() {
    let mut w = world(vec![cell(1, 0)], cell(12, 12), Direction::Up);
    w.advance(None);
    assert_eq!(w.status, GameStatus::Dead);
    assert_eq!(w.snake.cells, vec![cell(1, 0)]);
    assert_eq!(w.points, 0);
    assert_eq!(w.timer, 1);
}

#[test]
fn scenario_reversal_into_tail() {
    let mut w = world(vec![cell(5, 5), cell(5, 6)], cell(12, 12), Direction::Up);
    w.advance(Some(Direction::Down));
    assert_eq!(w.status, GameStatus::Dead);
    assert_eq!(w.snake.cells, vec![cell(5, 5), cell(5, 6)]);
    assert_eq!(w.points, 0);
}

#[test]
fn scenario_feeding() {
    let mut w = world(vec![cell(0, 0)], cell(1, 0), Direction::Right);
    w.advance(Some(Direction::Right));
    assert_eq!(w.status, GameStatus::Alive);
    assert_eq!(w.points, 1);
    assert_eq!(w.snake.cells, vec![cell(1, 0), cell(0, 0)]);
    assert!(!w.snake.occupies(w.food));
    assert!(w.food.x < 20 && w.food.y < 20);
}

#[test]
fn wall_strikes_in_all_four_directions() {
    let corners = [
        (cell(0, 5), Direction::Left),
        (cell(5, 0), Direction::Up),
        (cell(19, 5), Direction::Right),
        (cell(5, 19), Direction::Down),
    ];
    for (start, d) in corners {
        let mut w = world(vec![start], cell(12, 12), d);
        w.advance(None);
        assert_eq!(w.status, GameStatus::Dead);
        assert_eq!(w.snake.cells, vec![start]);
    }
}

#[test]
fn dead_tick_is_a_no_op() {
    let mut w = world(vec![cell(5, 0)], cell(12, 12), Direction::Up);
    w.advance(None);
    assert_eq!(w.status, GameStatus::Dead);
    assert_eq!(w.timer, 1);
    w.advance(Some(Direction::Down));
    assert_eq!(w.status, GameStatus::Dead);
    assert_eq!(w.snake.cells, vec![cell(5, 0)]);
    assert_eq!(w.timer, 1);
    assert_eq!(w.points, 0);
}

#[test]
fn restart_resets_everything() {
    let mut w = world(vec![cell(5, 0), cell(5, 1)], cell(12, 12), Direction::Up);
    w.points = 7;
    w.timer = 42;
    w.advance(None);
    assert_eq!(w.status, GameStatus::Dead);
    w.restart_game();
    assert_eq!(w.status, GameStatus::Alive);
    assert_eq!(w.points, 0);
    assert_eq!(w.timer, 0);
    assert_eq!(w.snake.cells, vec![cell(10, 10)]);
    assert_eq!(w.food, cell(12, 12));
    assert!(matches!(w.direction, Direction::Up));
    assert_ne!(w.snake.cells[0], w.food);
    assert!(w.snake.cells[0].x < 20 && w.snake.cells[0].y < 20);
}

#[test]
fn ordinary_move_translates_the_body() {
    let mut w = world(
        vec![cell(5, 5), cell(4, 5), cell(3, 5)],
        cell(12, 12),
        Direction::Right,
    );
    w.advance(None);
    assert_eq!(w.status, GameStatus::Alive);
    assert_eq!(w.snake.cells, vec![cell(6, 5), cell(5, 5), cell(4, 5)]);
    assert_eq!(w.points, 0);
}

#[test]
fn feeding_grows_a_longer_snake() {
    let mut w = world(vec![cell(5, 5), cell(5, 6)], cell(5, 4), Direction::Up);
    w.advance(None);
    assert_eq!(w.status, GameStatus::Alive);
    assert_eq!(w.points, 1);
    assert_eq!(w.snake.cells, vec![cell(5, 4), cell(5, 5), cell(5, 6)]);
    assert!(!w.snake.occupies(w.food));
}

#[test]
fn default_matches_new() {
    let a = App::new();
    let b = App::default();
    assert_eq!(a.snake.cells, b.snake.cells);
    assert_eq!(a.food, b.food);
    assert_eq!(a.status, b.status);
    assert_eq!(a.points, b.points);
    assert_eq!(a.timer, b.timer);
    assert!(matches!(b.direction, Direction::Up));
}

#[test]
fn quit_command_changes_nothing() {
    let mut w = App::new();
    let quit = w.apply_command(Command::Quit);
    assert!(quit);
    assert_eq!(w.snake.cells, vec![cell(10, 10)]);
    assert_eq!(w.timer, 0);
    assert_eq!(w.status, GameStatus::Alive);
}

#[test]
fn movement_commands_tick_the_world() {
    let mut w = App::new();
    let quit = w.apply_command(Command::MoveLeft);
    assert!(!quit);
    assert_eq!(w.snake.cells, vec![cell(9, 10)]);
    assert_eq!(w.timer, 1);
    let quit = w.apply_command(Command::MoveDown);
    assert!(!quit);
    assert_eq!(w.snake.cells, vec![cell(9, 11)]);
    assert_eq!(w.timer, 2);
}

#[test]
fn restart_command_rebuilds_the_world() {
    let mut w = world(vec![cell(5, 0)], cell(12, 12), Direction::Up);
    w.advance(None);
    assert_eq!(w.status, GameStatus::Dead);
    let quit = w.apply_command(Command::Restart);
    assert!(!quit);
    assert_eq!(w.status, GameStatus::Alive);
    assert_eq!(w.snake.cells, vec![cell(10, 10)]);
    assert_eq!(w.points, 0);
    assert_eq!(w.timer, 0);
}

#[test]
fn invariant_holds_through_a_whole_hunt() {
    let mut w = App::new();
    let steps = [
        Direction::Right,
        Direction::Right,
        Direction::Down,
        Direction::Down,
    ];
    for d in steps {
        w.advance(Some(d));
        assert!(w.is_well_formed());
        assert_eq!(w.status, GameStatus::Alive);
    }
    // The walk ended on the starting food cell (12, 12).
    assert_eq!(w.points, 1);
    assert_eq!(w.snake.len(), 2);
    assert_eq!(w.snake.cells[0], cell(12, 12));
    assert_eq!(w.timer, 4);
    for _ in 0..3 {
        if w.status == GameStatus::Alive {
            w.advance(None);
        }
        assert!(w.is_well_formed());
    }
}

#[test]
fn well_formedness_check_matches_the_invariant() {
    assert!(App::new().is_well_formed());

    let empty = world(vec![], cell(12, 12), Direction::Up);
    assert!(!empty.is_well_formed());

    let overlapping = world(vec![cell(5, 5), cell(5, 5)], cell(12, 12), Direction::Up);
    assert!(!overlapping.is_well_formed());

    let off_grid = world(vec![cell(20, 5)], cell(12, 12), Direction::Up);
    assert!(!off_grid.is_well_formed());

    let food_under_snake = world(vec![cell(5, 5)], cell(5, 5), Direction::Up);
    assert!(!food_under_snake.is_well_formed());

    let mut dead_overlap = world(vec![cell(5, 5)], cell(5, 5), Direction::Up);
    dead_overlap.status = GameStatus::Dead;
    assert!(dead_overlap.is_well_formed());
}

#[test]
fn feeding_that_fills_the_grid_ends_the_game() {
    // The snake covers every cell but (19, 19), which holds the food; its
    // head sits just above that cell.
    let mut cells = vec![cell(19, 18)];
    for x in 0..20 {
        for y in 0..20 {
            let c = cell(x, y);
            if c != cell(19, 18) && c != cell(19, 19) {
                cells.push(c);
            }
        }
    }
    let mut w = world(cells, cell(19, 19), Direction::Down);
    assert!(w.is_well_formed());
    w.advance(None);
    assert_eq!(w.status, GameStatus::Dead);
    assert_eq!(w.points, 1);
    assert_eq!(w.snake.len(), 400);
    assert_eq!(w.snake.cells[0], cell(19, 19));
    assert_eq!(w.food, cell(19, 19));
}

#[test]
fn timeout_tick_keeps_last_direction() {
    let mut w = App::new();
    w.advance(Some(Direction::Left));
    assert_eq!(w.snake.cells, vec![cell(9, 10)]);
    w.advance(None);
    assert_eq!(w.snake.cells, vec![cell(8, 10)]);
    assert!(matches!(w.direction, Direction::Left));
}
