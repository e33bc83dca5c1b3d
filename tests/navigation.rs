use std::cell::Cell;

use focus_grid::{Direction, Grid, Message, Position};
use iced::Task;
use vector_x::Vector2;

fn grid_of(rows: &[usize]) -> Grid<char> {
    let mut grid: Grid<char> = Grid::new();
    let mut next = b'A';
    for &len in rows {
        let mut row = Vec::new();
        for _ in 0..len {
            row.push(next as char);
            next += 1;
        }
        grid.locations.push(row);
    }
    grid
}

fn step(grid: &mut Grid<char>, dir: Direction) {
    let _task: Task<Message<()>> = grid.move_on_grid(dir);
}

#[test]
fn position_new_and_zero() {
    let p = Position::new(3, 7);
    assert_eq!(p.x, 3);
    assert_eq!(p.y, 7);
    let z = Position::zero();
    assert_eq!((z.x, z.y), (0, 0));
}

#[test]
fn position_equality_is_componentwise() {
    assert!(Position::new(1, 2) == Position::new(1, 2));
    assert!(Position::new(1, 2) != Position::new(2, 1));
    assert!(Position::new(1, 2) != Position::new(1, 3));
}

#[test]
fn position_converts_to_and_from_vector() {
    let v: Vector2<usize> = Position::new(4, 5).into();
    assert_eq!((v.one, v.two), (4, 5));
    let p: Position = Vector2::new(6usize, 9usize).into();
    assert!(p == Position::new(6, 9));
}

#[test]
fn new_grid_is_empty_and_at_origin() {
    let grid: Grid<char> = Grid::new();
    assert!(grid.locations.is_empty());
    assert!(grid.position == Position::zero());
}

#[test]
fn new_grids_get_distinct_scroll_ids() {
    let a: Grid<char> = Grid::new();
    let b: Grid<char> = Grid::new();
    assert!(a.scroll_id != b.scroll_id);
}

#[test]
fn jagged_down_then_up_example() {
    let mut grid = grid_of(&[3, 2]);
    grid.position = Position::new(2, 0);
    step(&mut grid, Direction::Down);
    assert!(grid.position == Position::new(1, 1));
    step(&mut grid, Direction::Up);
    assert!(grid.position == Position::new(1, 0));
}

#[test]
fn left_at_first_column_stays() {
    let mut grid = grid_of(&[3, 3]);
    grid.position = Position::new(0, 1);
    step(&mut grid, Direction::Left);
    assert!(grid.position == Position::new(0, 1));
}

#[test]
fn up_at_first_row_stays() {
    let mut grid = grid_of(&[3, 3]);
    grid.position = Position::new(2, 0);
    step(&mut grid, Direction::Up);
    assert!(grid.position == Position::new(2, 0));
}

#[test]
fn right_at_last_column_stays() {
    let mut grid = grid_of(&[3, 2]);
    grid.position = Position::new(1, 1);
    step(&mut grid, Direction::Right);
    assert!(grid.position == Position::new(1, 1));
}

#[test]
fn down_at_last_row_stays() {
    let mut grid = grid_of(&[3, 2]);
    grid.position = Position::new(1, 1);
    step(&mut grid, Direction::Down);
    assert!(grid.position == Position::new(1, 1));
}

#[test]
fn horizontal_moves_step_one_column() {
    let mut grid = grid_of(&[4]);
    step(&mut grid, Direction::Right);
    step(&mut grid, Direction::Right);
    assert!(grid.position == Position::new(2, 0));
    step(&mut grid, Direction::Left);
    assert!(grid.position == Position::new(1, 0));
}

#[test]
fn up_then_down_returns_to_row() {
    let mut grid = grid_of(&[4, 4, 4]);
    grid.position = Position::new(3, 1);
    step(&mut grid, Direction::Up);
    step(&mut grid, Direction::Down);
    assert!(grid.position == Position::new(3, 1));
}

#[test]
fn down_then_up_through_short_row_clamps_column() {
    let mut grid = grid_of(&[4, 2, 4]);
    grid.position = Position::new(3, 0);
    step(&mut grid, Direction::Down);
    assert!(grid.position == Position::new(1, 1));
    step(&mut grid, Direction::Up);
    assert_eq!(grid.position.y, 0);
    assert_eq!(grid.position.x, 1);
}

#[test]
fn focus_stays_valid_over_many_moves() {
    let mut grid = grid_of(&[5, 1, 3, 2]);
    let dirs = [
        Direction::Right,
        Direction::Right,
        Direction::Right,
        Direction::Right,
        Direction::Right,
        Direction::Down,
        Direction::Right,
        Direction::Down,
        Direction::Right,
        Direction::Right,
        Direction::Down,
        Direction::Down,
        Direction::Up,
        Direction::Up,
        Direction::Up,
        Direction::Up,
        Direction::Left,
    ];
    for dir in dirs {
        step(&mut grid, dir);
        let p = grid.position;
        assert!(p.y < grid.locations.len());
        assert!(p.x < grid.locations[p.y].len());
    }
    assert!(grid.position == Position::new(0, 0));
}

#[test]
fn moves_keep_cells_untouched() {
    let mut grid = grid_of(&[2, 3]);
    step(&mut grid, Direction::Down);
    step(&mut grid, Direction::Right);
    assert_eq!(grid.locations, vec![vec!['A', 'B'], vec!['C', 'D', 'E']]);
}

#[test]
fn callback_sees_focused_cell_and_both_positions() {
    let mut grid = grid_of(&[3, 2]);
    grid.position = Position::new(2, 0);
    let seen: Cell<Option<(char, Direction, usize, usize, usize, usize, usize, usize)>> = Cell::new(None);
    let _task: Task<Message<()>> = grid.move_on_grid_with_callback(
        Direction::Down,
        |g: &Grid<char>, d: Direction, b: &char, v: Vector2<Position>| {
            seen.set(Some((*b, d, v.one.x, v.one.y, v.two.x, v.two.y, g.position.x, g.position.y)));
            Task::none()
        },
    );
    assert_eq!(seen.get(), Some(('E', Direction::Down, 2, 0, 1, 1, 1, 1)));
    assert!(grid.position == Position::new(1, 1));
}

#[test]
fn get_custom_returns_payload_only_for_custom() {
    let m: Message<u32> = Message::Custom(42);
    assert_eq!(m.get_custom(), Some(42));
    let m: Message<u32> = Message::ButtonPressed(Position::new(1, 1));
    assert_eq!(m.get_custom(), None);
    let m: Message<u32> = Message::Navigate(Direction::Left);
    assert_eq!(m.get_custom(), None);
    let m: Message<u32> = Message::Nil;
    assert_eq!(m.get_custom(), None);
}

#[test]
fn position_shows_as_text() {
    assert_eq!(Position::new(3, 7).to_string(), "[x: 3, y: 7]");
    assert_eq!(Position::zero().to_string(), "[x: 0, y: 0]");
    assert_eq!(Position::new(10, 205).to_string(), "[x: 10, y: 205]");
    assert_eq!(
        Position::new(usize::MAX, 9).to_string(),
        "[x: 18446744073709551615, y: 9]"
    );
}
