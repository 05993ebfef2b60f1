//! What a step or an edit changed: the record that a renderer needs to redraw
//! the grid.

use vstd::prelude::*;

use crate::simulation::components::CellState;
use crate::simulation::grid::{cell_id, cell_x, cell_y, in_grid, CELL_COUNT};

verus! {

/// A cell whose state changed, with the state it has now.
#[derive(Clone, Copy, Debug, PartialEq, Eq, Structural)]
pub struct CellChange {
    pub x: i32,
    pub y: i32,
    pub state: CellState,
}

impl CellChange {
    /// The row-major index of the cell that changed.
    pub open spec fn id(self) -> int {
        cell_id(self.x as int, self.y as int)
    }
}

/// The change that brings the cell with index `id` to its state in `after`.
pub open spec fn change_at(after: Seq<CellState>, id: int) -> CellChange {
    CellChange { x: cell_x(id) as i32, y: cell_y(id) as i32, state: after[id] }
}

/// The changes from `before` to `after` among the cells with an index below
/// `end`, in the order of their indices.
pub open spec fn changes_below(before: Seq<CellState>, after: Seq<CellState>, end: int) -> Seq<
    CellChange,
>
    decreases end,
{
    if end <= 0 {
        Seq::empty()
    } else if before[end - 1] != after[end - 1] {
        changes_below(before, after, end - 1).push(change_at(after, end - 1))
    } else {
        changes_below(before, after, end - 1)
    }
}

/// One `CellChange` for every cell whose state in `after` differs from its
/// state in `before`, in the order of the cells' indices.
pub open spec fn changed_cells(before: Seq<CellState>, after: Seq<CellState>) -> Seq<CellChange> {
    changes_below(before, after, before.len() as int)
}

/// Cells that keep their state add nothing to the changes: where `before` and
/// `after` agree on every index from `start` up to `end`, the changes below
/// `end` are the changes below `start`.
pub proof fn lemma_changes_skip_unchanged(
    before: Seq<CellState>,
    after: Seq<CellState>,
    start: int,
    end: int,
)
    requires
        0 <= start <= end,
        forall|id: int| start <= id < end ==> before[id] == after[id],
    ensures
        changes_below(before, after, end) == changes_below(before, after, start),
    decreases end - start,
{
    if start < end {
        lemma_changes_skip_unchanged(before, after, start, end - 1);
    }
}

/// Between a generation and itself nothing has changed.
pub proof fn lemma_no_changes(cells: Seq<CellState>)
    ensures
        changed_cells(cells, cells) == Seq::<CellChange>::empty(),
{
    lemma_changes_skip_unchanged(cells, cells, 0, cells.len() as int);
}

/// What holds of the changes below `end`: each names a cell below `end` that
/// differs, with its new state; they come in the order of their indices; and
/// every cell below `end` that differs is among them.
proof fn lemma_changes_below(before: Seq<CellState>, after: Seq<CellState>, end: int)
    requires
        0 <= end <= CELL_COUNT,
    ensures
        forall|at: int|
            0 <= at < changes_below(before, after, end).len() ==> {
                let change = #[trigger] changes_below(before, after, end)[at];
                &&& 0 <= change.id() < end
                &&& change == change_at(after, change.id())
                &&& before[change.id()] != after[change.id()]
            },
        forall|first: int, second: int|
            0 <= first < second < changes_below(before, after, end).len() ==> (
            #[trigger] changes_below(before, after, end)[first]).id() < (
            #[trigger] changes_below(before, after, end)[second]).id(),
        forall|id: int|
            0 <= id < end && before[id] != after[id] ==> changes_below(before, after, end).contains(
                #[trigger] change_at(after, id),
            ),
    decreases end,
{
    if end > 0 {
        lemma_changes_below(before, after, end - 1);
        let earlier = changes_below(before, after, end - 1);
        let now = changes_below(before, after, end);
        if before[end - 1] != after[end - 1] {
            let added = change_at(after, end - 1);
            assert(added.id() == end - 1);
            assert(now[now.len() - 1] == added);
            assert forall|id: int| 0 <= id < end && before[id] != after[id] implies now.contains(
                #[trigger] change_at(after, id),
            ) by {
                if id < end - 1 {
                    let at = earlier.index_of(change_at(after, id));
                    assert(now[at] == change_at(after, id));
                }
            }
        }
    }
}

/// The changes are the differences, no more and no less. Each change names a
/// cell of the grid whose state differs between `before` and `after`, and
/// gives its state in `after`; the changes come in the order of the cells'
/// indices, so no cell is named twice; and every cell that differs is named.
pub proof fn lemma_changes_are_the_differences(before: Seq<CellState>, after: Seq<CellState>)
    requires
        before.len() == CELL_COUNT,
        after.len() == CELL_COUNT,
    ensures
        forall|at: int|
            0 <= at < changed_cells(before, after).len() ==> {
                let change = #[trigger] changed_cells(before, after)[at];
                &&& in_grid(change.x as int, change.y as int)
                &&& after[change.id()] == change.state
                &&& before[change.id()] != change.state
            },
        forall|first: int, second: int|
            0 <= first < second < changed_cells(before, after).len() ==> (
            #[trigger] changed_cells(before, after)[first]).id() < (
            #[trigger] changed_cells(before, after)[second]).id(),
        forall|x: int, y: int|
            in_grid(x, y) && before[cell_id(x, y)] != after[cell_id(x, y)] ==> changed_cells(
                before,
                after,
            ).contains(
                CellChange { x: x as i32, y: y as i32, state: after[#[trigger] cell_id(x, y)] },
            ),
{
    lemma_changes_below(before, after, CELL_COUNT as int);
    assert forall|x: int, y: int|
        in_grid(x, y) && before[cell_id(x, y)] != after[cell_id(x, y)] implies changed_cells(
        before,
        after,
    ).contains(
        CellChange { x: x as i32, y: y as i32, state: after[#[trigger] cell_id(x, y)] },
    ) by {
        assert(change_at(after, cell_id(x, y)) == CellChange {
            x: x as i32,
            y: y as i32,
            state: after[cell_id(x, y)],
        });
    }
}

} // verus!
