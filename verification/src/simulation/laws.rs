//! What holds of every generation and of the step that follows it.

use vstd::prelude::*;

use crate::simulation::components::CellState;
use crate::simulation::grid::{cell_id, in_grid, lemma_cell_id, CELL_COUNT};
use crate::simulation::rules::{live, live_at, neighbour_count, next_generation, snapshot};

verus! {

/// Whether `(xi, yi)` is a neighbour of `(x, y)` that qualifies for its
/// count: a cell of the grid in the 3x3 block around `(x, y)` whose column
/// and row both differ from those of `(x, y)`.
pub open spec fn is_neighbour(x: int, y: int, xi: int, yi: int) -> bool {
    &&& x - 1 <= xi <= x + 1
    &&& y - 1 <= yi <= y + 1
    &&& xi != x
    &&& yi != y
    &&& in_grid(xi, yi)
}

/// The step is deterministic: two generations that hold the same state for
/// every cell are followed by the same generation.
pub proof fn lemma_step_is_deterministic(first: Seq<CellState>, second: Seq<CellState>)
    requires
        first.len() == second.len(),
        forall|id: int| 0 <= id < first.len() ==> first[id] == second[id],
    ensures
        next_generation(first) == next_generation(second),
{
    assert(first =~= second);
}

/// The step reads one generation only: what a cell becomes is decided by
/// its own state and by which of its qualifying neighbours are alive, all in
/// the generation before the step. Two generations that agree on these agree
/// on what the cell becomes, whatever their other cells hold.
pub proof fn lemma_step_reads_the_neighbourhood(
    first: Seq<CellState>,
    second: Seq<CellState>,
    x: int,
    y: int,
)
    requires
        first.len() == CELL_COUNT,
        second.len() == CELL_COUNT,
        in_grid(x, y),
        first[cell_id(x, y)] == second[cell_id(x, y)],
        forall|xi: int, yi: int| #[trigger]
            is_neighbour(x, y, xi, yi) ==> first[cell_id(xi, yi)].alive() == second[cell_id(
                xi,
                yi,
            )].alive(),
    ensures
        next_generation(first)[cell_id(x, y)] == next_generation(second)[cell_id(x, y)],
{
    lemma_cell_id(x, y);
    lemma_live_reads_a_neighbour(first, second, x, y, x - 1, y - 1);
    lemma_live_reads_a_neighbour(first, second, x, y, x - 1, y + 1);
    lemma_live_reads_a_neighbour(first, second, x, y, x + 1, y - 1);
    lemma_live_reads_a_neighbour(first, second, x, y, x + 1, y + 1);
}

/// Two generations that agree on whether the diagonal neighbour `(xi, yi)`
/// of `(x, y)` is alive, if it is a cell of the grid, give it the same
/// weight in the count.
proof fn lemma_live_reads_a_neighbour(
    first: Seq<CellState>,
    second: Seq<CellState>,
    x: int,
    y: int,
    xi: int,
    yi: int,
)
    requires
        first.len() == CELL_COUNT,
        second.len() == CELL_COUNT,
        xi == x - 1 || xi == x + 1,
        yi == y - 1 || yi == y + 1,
        is_neighbour(x, y, xi, yi) ==> first[cell_id(xi, yi)].alive() == second[cell_id(
            xi,
            yi,
        )].alive(),
    ensures
        live(snapshot(first), xi, yi) == live(snapshot(second), xi, yi),
{
    if in_grid(xi, yi) {
        lemma_cell_id(xi, yi);
        assert(is_neighbour(x, y, xi, yi));
    }
}

/// Birth: a cell that is `Empty` or `Dead` and has exactly three qualifying
/// live neighbours is `Alive` in the next generation.
pub proof fn lemma_birth(cells: Seq<CellState>, x: int, y: int)
    requires
        cells.len() == CELL_COUNT,
        in_grid(x, y),
        cells[cell_id(x, y)] == CellState::Empty || cells[cell_id(x, y)] == CellState::Dead,
        neighbour_count(snapshot(cells), x, y) == 3,
    ensures
        next_generation(cells)[cell_id(x, y)] == CellState::Alive,
{
    lemma_cell_id(x, y);
}

/// Survival: a cell that is `Alive` and has two or three qualifying live
/// neighbours is `Alive` in the next generation.
pub proof fn lemma_survival(cells: Seq<CellState>, x: int, y: int)
    requires
        cells.len() == CELL_COUNT,
        in_grid(x, y),
        cells[cell_id(x, y)] == CellState::Alive,
        2 <= neighbour_count(snapshot(cells), x, y) <= 3,
    ensures
        next_generation(cells)[cell_id(x, y)] == CellState::Alive,
{
    lemma_cell_id(x, y);
}

/// Death: a cell that is `Alive` and has fewer than two or more than three
/// qualifying live neighbours is `Dead` in the next generation.
pub proof fn lemma_death(cells: Seq<CellState>, x: int, y: int)
    requires
        cells.len() == CELL_COUNT,
        in_grid(x, y),
        cells[cell_id(x, y)] == CellState::Alive,
        neighbour_count(snapshot(cells), x, y) < 2 || neighbour_count(snapshot(cells), x, y) > 3,
    ensures
        next_generation(cells)[cell_id(x, y)] == CellState::Dead,
{
    lemma_cell_id(x, y);
}

/// Stability: a cell that is `Dead` or `Empty` and has any number of
/// qualifying live neighbours but three keeps its state. A `Dead` cell does
/// not go back to `Empty`, and an `Empty` cell does not become `Dead`.
pub proof fn lemma_dead_and_empty_are_stable(cells: Seq<CellState>, x: int, y: int)
    requires
        cells.len() == CELL_COUNT,
        in_grid(x, y),
        cells[cell_id(x, y)] == CellState::Empty || cells[cell_id(x, y)] == CellState::Dead,
        neighbour_count(snapshot(cells), x, y) != 3,
    ensures
        next_generation(cells)[cell_id(x, y)] == cells[cell_id(x, y)],
{
    lemma_cell_id(x, y);
}

/// The step never empties a cell: a cell that is `Empty` in the next
/// generation was `Empty` before, so a cell that has lived stays told apart
/// from one that never has.
pub proof fn lemma_step_never_empties(cells: Seq<CellState>, x: int, y: int)
    requires
        cells.len() == CELL_COUNT,
        in_grid(x, y),
        next_generation(cells)[cell_id(x, y)] == CellState::Empty,
    ensures
        cells[cell_id(x, y)] == CellState::Empty,
{
    lemma_cell_id(x, y);
}

/// The count stays inside the grid: among the four diagonal candidates of
/// any `(x, y)` it reads the snapshot only for those that are cells of the
/// grid, each at an index below `CELL_COUNT`, and it counts no other. So it
/// is at most four, at most two for a cell on an edge and at most one for a
/// cell in a corner.
pub proof fn lemma_count_stays_inside_the_grid(life: Seq<bool>, x: int, y: int)
    requires
        life.len() == CELL_COUNT,
    ensures
        forall|xi: int, yi: int| #[trigger]
            live_at(life, xi, yi) ==> in_grid(xi, yi) && 0 <= cell_id(xi, yi) < life.len(),
        0 <= neighbour_count(life, x, y) <= 4,
        in_grid(x, y) && (x == 0 || x == 99 || y == 0 || y == 99) ==> neighbour_count(life, x, y)
            <= 2,
        in_grid(x, y) && (x == 0 || x == 99) && (y == 0 || y == 99) ==> neighbour_count(life, x, y)
            <= 1,
{
    assert forall|xi: int, yi: int| #[trigger]
        live_at(life, xi, yi) implies in_grid(xi, yi) && 0 <= cell_id(xi, yi) < life.len() by {
        lemma_cell_id(xi, yi);
    }
}

} // verus!
