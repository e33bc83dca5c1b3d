use vstd::prelude::*;
use iced::Task;
use iced::widget::Id;
use vector_x::Vector2;

use crate::direction::Direction;
use crate::message::Message;
use crate::position::Position;

verus! {

/// iced's `Task`, the follow-up work handed back to the host; carried through unopened.
#[verifier::external_type_specification]
#[verifier::external_body]
#[verifier::reject_recursive_types(T)]
pub struct ExTask<T>(Task<T>);

/// Relies on iced's `Id::unique`, which hands out a fresh identifier on each call.
pub assume_specification[ iced::widget::Id::unique ]() -> iced::widget::Id;

/// Relies on iced's `Task::none`, the task that does nothing.
pub assume_specification<T>[ iced::Task::<T>::none ]() -> iced::Task<T>;

/// Focus lies on a cell of the table whose rows have lengths `lens`.
pub open spec fn focus_valid(lens: Seq<nat>, p: Position) -> bool {
    p.y < lens.len() && p.x < lens[p.y as int]
}

/// A column index pulled back into a row of length `len`.
pub open spec fn clamp_to_row(x: usize, len: nat) -> usize {
    if x < len {
        x
    } else {
        (len - 1) as usize
    }
}

/// The row that a move in direction `d` lands on.
pub open spec fn target_row(lens: Seq<nat>, p: Position, d: Direction) -> int {
    match d {
        Direction::Up => if p.y > 0 {
            p.y - 1
        } else {
            p.y as int
        },
        Direction::Down => if p.y + 1 < lens.len() {
            p.y + 1
        } else {
            p.y as int
        },
        _ => p.y as int,
    }
}

/// The focus after one move in direction `d`: vertical moves re-clamp the
/// column into the new row, horizontal moves stay in the row; at an edge the
/// coordinate is left as it is.
pub open spec fn moved(lens: Seq<nat>, p: Position, d: Direction) -> Position {
    match d {
        Direction::Up | Direction::Down => {
            let y = target_row(lens, p, d);
            Position { x: clamp_to_row(p.x, lens[y]), y: y as usize }
        },
        Direction::Left => Position {
            x: if p.x > 0 {
                (p.x - 1) as usize
            } else {
                p.x
            },
            y: p.y,
        },
        Direction::Right => Position {
            x: if p.x + 1 < lens[p.y as int] {
                (p.x + 1) as usize
            } else {
                p.x
            },
            y: p.y,
        },
    }
}

/// A move is defined when the focus is on a cell and the row it lands on has a cell.
pub open spec fn can_move(lens: Seq<nat>, p: Position, d: Direction) -> bool {
    focus_valid(lens, p) && lens[target_row(lens, p, d)] > 0
}

/// The row count and every row length fit in a `usize`, as they do for a table held in memory.
pub open spec fn fits_usize(lens: Seq<nat>) -> bool {
    lens.len() <= usize::MAX && forall|i: int| 0 <= i < lens.len() ==> lens[i] <= usize::MAX
}

/// A defined move lands on a cell.
pub proof fn lemma_move_keeps_focus_valid(lens: Seq<nat>, p: Position, d: Direction)
    requires
        fits_usize(lens),
        can_move(lens, p, d),
    ensures
        focus_valid(lens, moved(lens, p, d)),
{
}

/// Every row of the table has at least one cell.
pub open spec fn rows_nonempty(lens: Seq<nat>) -> bool {
    forall|i: int| 0 <= i < lens.len() ==> lens[i] > 0
}

/// The focus after the moves `dirs`, taken first to last.
pub open spec fn moved_all(lens: Seq<nat>, p: Position, dirs: Seq<Direction>) -> Position
    decreases dirs.len(),
{
    if dirs.len() == 0 {
        p
    } else {
        moved(lens, moved_all(lens, p, dirs.drop_last()), dirs.last())
    }
}

/// On a table whose rows all have a cell, the focus stays on a cell after
/// any sequence of moves, and each of those moves is defined.
pub proof fn lemma_moves_keep_focus_valid(lens: Seq<nat>, p: Position, dirs: Seq<Direction>)
    requires
        fits_usize(lens),
        rows_nonempty(lens),
        focus_valid(lens, p),
    ensures
        focus_valid(lens, moved_all(lens, p, dirs)),
        dirs.len() > 0 ==> can_move(lens, moved_all(lens, p, dirs.drop_last()), dirs.last()),
    decreases dirs.len(),
{
    if dirs.len() > 0 {
        let q = moved_all(lens, p, dirs.drop_last());
        lemma_moves_keep_focus_valid(lens, p, dirs.drop_last());
        lemma_move_keeps_focus_valid(lens, q, dirs.last());
    }
}

/// A move against an edge of the table leaves the focus where it was: left
/// from the first column, up from the first row, right from the last cell of
/// a row, down from the last row.
pub proof fn lemma_edges_stop_moves(lens: Seq<nat>, p: Position)
    requires
        fits_usize(lens),
        focus_valid(lens, p),
    ensures
        p.x == 0 ==> moved(lens, p, Direction::Left) == p,
        p.y == 0 ==> moved(lens, p, Direction::Up) == p,
        p.x + 1 == lens[p.y as int] ==> moved(lens, p, Direction::Right) == p,
        p.y + 1 == lens.len() ==> moved(lens, p, Direction::Down) == p,
{
}

/// Up then down from any row but the first, and down then up from any row
/// but the last, come back to the same row. The column comes back too when
/// the row passed through is long enough to hold it; otherwise it is the
/// column clamped into that row.
pub proof fn lemma_vertical_round_trip(lens: Seq<nat>, p: Position)
    requires
        fits_usize(lens),
        rows_nonempty(lens),
        focus_valid(lens, p),
    ensures
        p.y > 0 ==> moved(lens, moved(lens, p, Direction::Up), Direction::Down).y == p.y,
        p.y > 0 ==> moved(lens, moved(lens, p, Direction::Up), Direction::Down).x == clamp_to_row(
            p.x,
            lens[p.y - 1],
        ),
        p.y > 0 && p.x < lens[p.y - 1] ==> moved(
            lens,
            moved(lens, p, Direction::Up),
            Direction::Down,
        ) == p,
        p.y + 1 < lens.len() ==> moved(lens, moved(lens, p, Direction::Down), Direction::Up).y
            == p.y,
        p.y + 1 < lens.len() ==> moved(lens, moved(lens, p, Direction::Down), Direction::Up).x
            == clamp_to_row(p.x, lens[p.y + 1]),
        p.y + 1 < lens.len() && p.x < lens[p.y + 1] ==> moved(
            lens,
            moved(lens, p, Direction::Down),
            Direction::Up,
        ) == p,
{
}

/// A focus-navigable table of cells: rows may differ in length.
pub struct Grid<GridButton> {
    pub locations: Vec<Vec<GridButton>>,
    pub position: Position,
    pub scroll_id: Id,
}

impl<GridButton> Grid<GridButton> {
    /// The length of each row, top to bottom.
    pub open spec fn row_lens(&self) -> Seq<nat> {
        self.locations@.map_values(|row: Vec<GridButton>| row@.len())
    }

    /// The table held by a grid fits in memory.
    pub proof fn lemma_row_lens_fit(&self)
        ensures
            fits_usize(self.row_lens()),
    {
        assert(self.locations@.len() == self.locations.len());
        assert forall|i: int| 0 <= i < self.row_lens().len() implies self.row_lens()[i] <= usize::MAX by {
            assert(self.locations@[i]@.len() == self.locations@[i].len());
        }
    }

    /// The cell under focus.
    pub open spec fn focused(&self) -> GridButton {
        self.locations@[self.position.y as int]@[self.position.x as int]
    }

    /// An empty grid focused on the origin, with a fresh scroll identifier.
    pub fn new() -> (g: Self)
        ensures
            g.locations@.len() == 0,
            g.position == Position::zero_spec(),
    {
        Grid {
            locations: Vec::new(),
            position: Position::zero(),
            scroll_id: Id::unique(),
        }
    }

    /// The length of row `y`.
    fn row_len(&self, y: usize) -> (n: usize)
        requires
            y < self.locations@.len(),
        ensures
            n == self.row_lens()[y as int],
    {
        self.locations[y].len()
    }

    /// Moves the focus one step in direction `dir`.
    fn step(&mut self, dir: Direction)
        requires
            can_move(old(self).row_lens(), old(self).position, dir),
        ensures
            final(self).locations == old(self).locations,
            final(self).scroll_id == old(self).scroll_id,
            final(self).position == moved(old(self).row_lens(), old(self).position, dir),
            focus_valid(final(self).row_lens(), final(self).position),
    {
        proof {
            self.lemma_row_lens_fit();
            lemma_move_keeps_focus_valid(self.row_lens(), self.position, dir);
        }
        match dir {
            Direction::Up => {
                if self.position.y > 0 {
                    self.position.y = self.position.y - 1;
                }
                let row_len = self.row_len(self.position.y);
                if self.position.x >= row_len {
                    self.position.x = row_len - 1;
                }
            },
            Direction::Down => {
                if self.position.y < self.locations.len() - 1 {
                    self.position.y = self.position.y + 1;
                }
                let row_len = self.row_len(self.position.y);
                if self.position.x >= row_len {
                    self.position.x = row_len - 1;
                }
            },
            Direction::Left => {
                if self.position.x > 0 {
                    self.position.x = self.position.x - 1;
                }
            },
            Direction::Right => {
                let row_len = self.row_len(self.position.y);
                if self.position.x < row_len - 1 {
                    self.position.x = self.position.x + 1;
                }
            },
        }
    }

    /// Moves the focus one step in direction `dir` and hands the follow-up
    /// decision to `callback`, which sees the grid after the move, the
    /// direction, the cell now under focus and the positions before and after
    /// (`one` is the old one, `two` the new one). Its task is returned as is.
    pub fn move_on_grid_with_callback<CustomMessage: Clone, F>(
        &mut self,
        dir: Direction,
        callback: F,
    ) -> (t: Task<Message<CustomMessage>>) where
        F: FnOnce(&Grid<GridButton>, Direction, &GridButton, Vector2<Position>) -> Task<
            Message<CustomMessage>,
        >,

        requires
            can_move(old(self).row_lens(), old(self).position, dir),
            forall|g: &Grid<GridButton>, d: Direction, b: &GridButton, v: Vector2<Position>|
                callback.requires((g, d, b, v)),
        ensures
            final(self).locations == old(self).locations,
            final(self).scroll_id == old(self).scroll_id,
            final(self).position == moved(old(self).row_lens(), old(self).position, dir),
            focus_valid(final(self).row_lens(), final(self).position),
            callback.ensures(
                (
                    &*final(self),
                    dir,
                    &final(self).focused(),
                    Vector2 { one: old(self).position, two: final(self).position },
                ),
                t,
            ),
    {
        let old_position = self.position;
        self.step(dir);
        let y = self.position.y;
        let x = self.position.x;
        callback(&*self, dir, &self.locations[y][x], Vector2 { one: old_position, two: self.position })
    }

    /// Moves the focus one step in direction `dir`, with no follow-up work.
    pub fn move_on_grid<CustomMessage: Clone>(&mut self, dir: Direction) -> (t: Task<
        Message<CustomMessage>,
    >)
        requires
            can_move(old(self).row_lens(), old(self).position, dir),
        ensures
            final(self).locations == old(self).locations,
            final(self).scroll_id == old(self).scroll_id,
            final(self).position == moved(old(self).row_lens(), old(self).position, dir),
            focus_valid(final(self).row_lens(), final(self).position),
    {
        self.move_on_grid_with_callback(
            dir,
            |g: &Grid<GridButton>, d: Direction, b: &GridButton, v: Vector2<Position>| Task::none(),
        )
    }
}

} // verus!
