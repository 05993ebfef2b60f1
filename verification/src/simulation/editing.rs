//! What the pending edit requests do to the cells.

use vstd::prelude::*;

use crate::simulation::components::CellState;
use crate::simulation::grid::{cell_id, in_grid, CELL_COUNT};

verus! {

/// The cells after the cell at `target` was set to `state`. Without a
/// target, or with one that lies outside the grid, the cells stay as they
/// are.
pub open spec fn painted(cells: Seq<CellState>, target: Option<(i32, i32)>, state: CellState) -> Seq<
    CellState,
> {
    match target {
        Some((x, y)) => if in_grid(x as int, y as int) {
            cells.update(cell_id(x as int, y as int), state)
        } else {
            cells
        },
        None => cells,
    }
}

/// The cells after the two pending requests were applied: the draw request
/// sets its cell to `Alive`, then the erase request sets its cell to `Empty`.
pub open spec fn edited(
    cells: Seq<CellState>,
    draw: Option<(i32, i32)>,
    erase: Option<(i32, i32)>,
) -> Seq<CellState> {
    painted(painted(cells, draw, CellState::Alive), erase, CellState::Empty)
}

/// Erase wins: a draw and an erase request for the same cell leave that cell
/// `Empty` and every other cell as it was.
pub proof fn lemma_erase_wins(cells: Seq<CellState>, x: i32, y: i32)
    requires
        cells.len() == CELL_COUNT,
        in_grid(x as int, y as int),
    ensures
        edited(cells, Some((x, y)), Some((x, y)))[cell_id(x as int, y as int)] == CellState::Empty,
        edited(cells, Some((x, y)), Some((x, y))) == cells.update(
            cell_id(x as int, y as int),
            CellState::Empty,
        ),
{
    let id = cell_id(x as int, y as int);
    assert(cells.update(id, CellState::Alive).update(id, CellState::Empty) =~= cells.update(
        id,
        CellState::Empty,
    ));
}

/// A request for a coordinate outside the grid is ignored, and so is the
/// absence of a request.
pub proof fn lemma_requests_outside_are_ignored(
    cells: Seq<CellState>,
    draw: Option<(i32, i32)>,
    erase: Option<(i32, i32)>,
)
    requires
        draw matches Some((x, y)) ==> !in_grid(x as int, y as int),
        erase matches Some((x, y)) ==> !in_grid(x as int, y as int),
    ensures
        edited(cells, draw, erase) == cells,
{
}

} // verus!
