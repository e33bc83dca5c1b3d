use vstd::prelude::*;

use crate::grid::Grid;
use crate::message::Message;
use crate::position::Position;

verus! {

/// One rendered row: its index in the table and, left to right, the
/// position that pressing each of its cells reports.
pub struct RowGroup {
    pub row: usize,
    pub cells: Vec<Position>,
}

impl RowGroup {
    /// The message that pressing the cell at column `c` of this row sends.
    pub fn on_press<CustomMessage: Clone>(&self, c: usize) -> (m: Message<CustomMessage>)
        requires
            c < self.cells@.len(),
            self.cells@ == row_cells(self.row as int, self.cells@.len()),
        ensures
            m == Message::<CustomMessage>::ButtonPressed(Position { x: c, y: self.row }),
    {
        Message::ButtonPressed(self.cells[c])
    }
}

impl View for RowGroup {
    type V = (int, Seq<Position>);

    open spec fn view(&self) -> (int, Seq<Position>) {
        (self.row as int, self.cells@)
    }
}

/// The indices of the rows that `keep` lets through, in ascending order.
pub open spec fn kept_rows(keep: Seq<bool>) -> Seq<int>
    decreases keep.len(),
{
    if keep.len() == 0 {
        Seq::empty()
    } else {
        let before = kept_rows(keep.drop_last());
        if keep.last() {
            before.push(keep.len() - 1)
        } else {
            before
        }
    }
}

/// The cells of row `row`, of length `len`, each at its own column.
pub open spec fn row_cells(row: int, len: nat) -> Seq<Position> {
    Seq::new(len, |c: int| Position { x: c as usize, y: row as usize })
}

/// The rows that survive culling, top to bottom, each with its cells.
pub open spec fn composed(lens: Seq<nat>, keep: Seq<bool>) -> Seq<(int, Seq<Position>)> {
    kept_rows(keep).map_values(|r: int| (r, row_cells(r, lens[r])))
}

/// `kept_rows` lists exactly the rows that `keep` marks, each once, in
/// ascending order.
pub proof fn lemma_kept_rows(keep: Seq<bool>)
    ensures
        forall|i: int| 0 <= i < kept_rows(keep).len() ==> 0 <= #[trigger] kept_rows(keep)[i] < keep.len(),
        forall|i: int| 0 <= i < kept_rows(keep).len() ==> keep[#[trigger] kept_rows(keep)[i]],
        forall|i: int, j: int|
            0 <= i < j < kept_rows(keep).len() ==> #[trigger] kept_rows(keep)[i] < #[trigger] kept_rows(keep)[j],
        forall|r: int| 0 <= r < keep.len() && keep[r] ==> #[trigger] kept_rows(keep).contains(r),
    decreases keep.len(),
{
    if keep.len() > 0 {
        let before = keep.drop_last();
        lemma_kept_rows(before);
        assert forall|r: int| 0 <= r < keep.len() && keep[r] implies #[trigger] kept_rows(keep).contains(r) by {
            if r < keep.len() - 1 {
                assert(before[r] == keep[r]);
                assert(kept_rows(before).contains(r));
                let k = choose|k: int| 0 <= k < kept_rows(before).len() && kept_rows(before)[k] == r;
                assert(kept_rows(keep)[k] == r);
            } else {
                assert(kept_rows(keep).last() == r);
            }
        }
    }
}

/// Each composed cell reports its own place in the table when pressed: the
/// cell at column `c` of the group for row `r` is at `(c, r)`, and the group
/// holds the whole row. What else was culled does not change a group: two
/// compositions that both render row `r` give it the same cells.
pub proof fn lemma_pressed_cell_reports_its_place(
    lens: Seq<nat>,
    keep: Seq<bool>,
    other: Seq<bool>,
    i: int,
    j: int,
    c: int,
)
    requires
        keep.len() == lens.len(),
        other.len() == lens.len(),
        0 <= i < composed(lens, keep).len(),
        0 <= j < composed(lens, other).len(),
        composed(lens, keep)[i].0 == composed(lens, other)[j].0,
        0 <= c < composed(lens, keep)[i].1.len(),
    ensures
        composed(lens, keep)[i].1.len() == lens[composed(lens, keep)[i].0],
        composed(lens, keep)[i].1[c] == (Position {
            x: c as usize,
            y: composed(lens, keep)[i].0 as usize,
        }),
        composed(lens, keep)[i] == composed(lens, other)[j],
{
}

/// Composition is a query on the table alone: grids with the same cells give
/// the same composition, wherever their focus is, however often it is asked.
pub proof fn lemma_composition_ignores_focus<GridButton>(
    g: Grid<GridButton>,
    h: Grid<GridButton>,
    keep: Seq<bool>,
)
    requires
        g.locations == h.locations,
    ensures
        composed(g.row_lens(), keep) == composed(h.row_lens(), keep),
{
}

/// Going one row further: the row is added when it is kept.
proof fn lemma_kept_rows_step(keep: Seq<bool>, r: int)
    requires
        0 <= r < keep.len(),
    ensures
        kept_rows(keep.subrange(0, r + 1)) == (if keep[r] {
            kept_rows(keep.subrange(0, r)).push(r)
        } else {
            kept_rows(keep.subrange(0, r))
        }),
{
    assert(keep.subrange(0, r + 1).drop_last() =~= keep.subrange(0, r));
}

impl<GridButton> Grid<GridButton> {
    /// Lays out the rows that `keep` lets through, top to bottom: row `r` is
    /// rendered when `keep[r]` holds, and then each of its cells, left to
    /// right, with the position that pressing it reports.
    pub fn compose(&self, keep: &Vec<bool>) -> (groups: Vec<RowGroup>)
        requires
            keep@.len() == self.locations@.len(),
        ensures
            groups@.map_values(|g: RowGroup| g@) == composed(self.row_lens(), keep@),
    {
        let mut groups: Vec<RowGroup> = Vec::new();
        let mut r: usize = 0;
        while r < self.locations.len()
            invariant
                r <= self.locations@.len(),
                keep@.len() == self.locations@.len(),
                groups@.map_values(|g: RowGroup| g@) == composed(
                    self.row_lens(),
                    keep@.subrange(0, r as int),
                ),
            decreases self.locations@.len() - r,
        {
            proof {
                lemma_kept_rows_step(keep@, r as int);
            }
            if keep[r] {
                let len = self.locations[r].len();
                let mut cells: Vec<Position> = Vec::new();
                let mut c: usize = 0;
                while c < len
                    invariant
                        c <= len,
                        cells@ == row_cells(r as int, c as nat),
                    decreases len - c,
                {
                    cells.push(Position::new(c, r));
                    c = c + 1;
                    assert(cells@ =~= row_cells(r as int, c as nat));
                }
                let ghost before = groups@;
                groups.push(RowGroup { row: r, cells });
                assert(groups@.map_values(|g: RowGroup| g@) =~= before.map_values(|g: RowGroup| g@).push(
                    (r as int, row_cells(r as int, self.row_lens()[r as int])),
                ));
                assert(composed(self.row_lens(), keep@.subrange(0, r + 1)) =~= composed(
                    self.row_lens(),
                    keep@.subrange(0, r as int),
                ).push((r as int, row_cells(r as int, self.row_lens()[r as int]))));
            } else {
                assert(composed(self.row_lens(), keep@.subrange(0, r + 1)) =~= composed(
                    self.row_lens(),
                    keep@.subrange(0, r as int),
                ));
            }
            r = r + 1;
        }
        assert(keep@.subrange(0, r as int) =~= keep@);
        groups
    }
}

} // verus!
