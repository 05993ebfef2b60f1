//! The transition rule: how many live neighbours a cell has, and what the
//! cell becomes in the next generation.
//!
//! Only the four diagonal neighbours of a cell qualify for its count: a
//! candidate of the 3x3 block around the cell is counted when both its column
//! and its row differ from the cell's. The four orthogonal neighbours are
//! never counted, so this automaton is not the textbook one with the full
//! Moore neighbourhood.

use vstd::prelude::*;

use crate::simulation::components::CellState;
use crate::simulation::grid::{
    cell_id, cell_x, cell_y, in_grid, is_in_grid, Grid, CELL_COUNT, GRID_SIZE,
};

verus! {

/// The alive / not-alive flag of every cell, in row-major order.
pub open spec fn snapshot(cells: Seq<CellState>) -> Seq<bool> {
    Seq::new(cells.len(), |id: int| cells[id].alive())
}

/// Whether `(x, y)` is a cell of the grid that the snapshot `life` holds as
/// alive. A coordinate outside the grid is never alive.
pub open spec fn live_at(life: Seq<bool>, x: int, y: int) -> bool {
    in_grid(x, y) && life[cell_id(x, y)]
}

/// What `(x, y)` adds to a count of live cells: 1 if it is alive, else 0.
pub open spec fn live(life: Seq<bool>, x: int, y: int) -> int {
    if live_at(life, x, y) {
        1
    } else {
        0
    }
}

/// The number of qualifying live neighbours of `(x, y)` in the snapshot
/// `life`: the live cells among its four diagonal neighbours.
pub open spec fn neighbour_count(life: Seq<bool>, x: int, y: int) -> int {
    live(life, x - 1, y - 1) + live(life, x - 1, y + 1) + live(life, x + 1, y - 1) + live(
        life,
        x + 1,
        y + 1,
    )
}

/// The state that follows `state` for a cell with `neighbours` qualifying
/// live neighbours.
///
/// Exactly three neighbours give birth, whatever the cell was. Fewer than two
/// or more than three kill a cell that is `Alive`; they leave a `Dead` or
/// `Empty` cell as it is. Two neighbours change nothing.
pub open spec fn next_state(state: CellState, neighbours: int) -> CellState {
    if neighbours == 3 {
        CellState::Alive
    } else if state.alive() && (neighbours < 2 || neighbours > 3) {
        CellState::Dead
    } else {
        state
    }
}

/// The generation that follows `cells`: every cell takes the state that the
/// rule gives for its own state and its neighbour count, both read from
/// `cells` itself.
pub open spec fn next_generation(cells: Seq<CellState>) -> Seq<CellState> {
    Seq::new(
        cells.len(),
        |id: int| next_state(cells[id], neighbour_count(snapshot(cells), cell_x(id), cell_y(id))),
    )
}

/// The state that follows `state` for a cell with `neighbours` qualifying
/// live neighbours.
pub fn transition(state: CellState, neighbours: u8) -> (next: CellState)
    ensures
        next == next_state(state, neighbours as int),
{
    let mut next = state;
    if neighbours < 2 || neighbours > 3 {
        match state {
            CellState::Alive => {
                next = CellState::Dead;
            },
            CellState::Dead | CellState::Empty => {},
        }
    }
    if neighbours == 3 {
        next = CellState::Alive;
    }
    next
}

/// Whether the scan of the 3x3 block around `(x, y)` counts the candidate
/// `(xi, yi)`.
spec fn qualifies(x: int, y: int, xi: int, yi: int) -> bool {
    xi != x && yi != y && in_grid(xi, yi)
}

/// What the candidate `(xi, yi)` adds to the scan around `(x, y)`.
spec fn counted(life: Seq<bool>, x: int, y: int, xi: int, yi: int) -> int {
    if qualifies(x, y, xi, yi) && life[cell_id(xi, yi)] {
        1
    } else {
        0
    }
}

/// What the rows of column `xi` below `rows_end` add to the scan around
/// `(x, y)`.
spec fn counted_in_column(life: Seq<bool>, x: int, y: int, xi: int, rows_end: int) -> int {
    (if y - 1 < rows_end {
        counted(life, x, y, xi, y - 1)
    } else {
        0
    }) + (if y < rows_end {
        counted(life, x, y, xi, y)
    } else {
        0
    }) + (if y + 1 < rows_end {
        counted(life, x, y, xi, y + 1)
    } else {
        0
    })
}

/// Where the scan around `(x, y)` stands in column `column` once it has
/// reached `(xi, yi)`: past the last row of an earlier column, at `yi` in
/// the current one, before the first row of a later one.
spec fn rows_end(y: int, column: int, xi: int, yi: int) -> int {
    if column < xi {
        y + 2
    } else if column == xi {
        yi
    } else {
        y - 1
    }
}

/// The count of the scan around `(x, y)` once it has reached `(xi, yi)`,
/// column by column and row by row.
spec fn scanned(life: Seq<bool>, x: int, y: int, xi: int, yi: int) -> int {
    counted_in_column(life, x, y, x - 1, rows_end(y, x - 1, xi, yi)) + counted_in_column(
        life,
        x,
        y,
        x,
        rows_end(y, x, xi, yi),
    ) + counted_in_column(life, x, y, x + 1, rows_end(y, x + 1, xi, yi))
}

/// The alive / not-alive flag of every cell of a grid, taken at one moment.
///
/// Its view is the sequence of the flags in row-major order, always
/// `CELL_COUNT` long.
pub struct LifeGrid {
    alive: Vec<bool>,
}

impl View for LifeGrid {
    type V = Seq<bool>;

    closed spec fn view(&self) -> Seq<bool> {
        Seq::new(CELL_COUNT as nat, |id: int| self.alive@[id])
    }
}

impl LifeGrid {
    #[verifier::type_invariant]
    spec fn well_formed(&self) -> bool {
        self.alive@.len() == CELL_COUNT
    }

    /// The view of a snapshot has one flag for each cell.
    pub broadcast proof fn lemma_view_len(&self)
        ensures
            #[trigger] self@.len() == CELL_COUNT,
    {
    }

    /// The snapshot of `grid` as it is now.
    pub fn capture(grid: &Grid) -> (life: LifeGrid)
        ensures
            life@ == snapshot(grid@),
    {
        broadcast use Grid::lemma_view_len;

        let mut alive: Vec<bool> = Vec::new();
        while alive.len() < CELL_COUNT
            invariant
                alive@.len() <= CELL_COUNT,
                forall|id: int| 0 <= id < alive@.len() ==> alive@[id] == grid@[id].alive(),
            decreases CELL_COUNT - alive@.len(),
        {
            let state = grid.state(alive.len());
            alive.push(state.is_alive());
        }
        LifeGrid { alive }
    }

    /// Whether `(x, y)` is a cell of the grid that was alive when the
    /// snapshot was taken. A coordinate outside the grid is never alive.
    pub fn is_alive(&self, x: i32, y: i32) -> (alive: bool)
        ensures
            alive == live_at(self@, x as int, y as int),
    {
        proof {
            use_type_invariant(self);
        }
        is_in_grid(x, y) && self.alive[(x + y * GRID_SIZE) as usize]
    }

    /// The number of qualifying live neighbours of `(x, y)`: the live cells
    /// among its four diagonal neighbours. The scan goes over the 3x3 block
    /// around `(x, y)` and skips every candidate that lies outside the grid,
    /// so it is defined for every `(x, y)`, on the edges and in the corners
    /// of the grid as well as outside of it.
    pub fn neighbour_count(&self, x: i32, y: i32) -> (count: u8)
        ensures
            count == neighbour_count(self@, x as int, y as int),
            count <= 4,
    {
        proof {
            use_type_invariant(self);
        }
        let side: i64 = GRID_SIZE as i64;
        let mut count: u8 = 0;
        let mut xi: i64 = x as i64 - 1;
        while xi <= x as i64 + 1
            invariant
                self.alive@.len() == CELL_COUNT,
                side == GRID_SIZE,
                x - 1 <= xi <= x + 2,
                count == scanned(self@, x as int, y as int, xi as int, y - 1),
            decreases x + 2 - xi,
        {
            let mut yi: i64 = y as i64 - 1;
            while yi <= y as i64 + 1
                invariant
                    self.alive@.len() == CELL_COUNT,
                    side == GRID_SIZE,
                    x - 1 <= xi <= x + 1,
                    y - 1 <= yi <= y + 2,
                    count == scanned(self@, x as int, y as int, xi as int, yi as int),
                decreases y + 2 - yi,
            {
                if (xi != x as i64 && yi != y as i64) && xi >= 0 && xi < side && yi >= 0 && yi
                    < side {
                    let neighbour_id: i64 = xi + yi * side;
                    if self.alive[neighbour_id as usize] {
                        count += 1;
                    }
                }
                yi += 1;
            }
            xi += 1;
        }
        count
    }
}

} // verus!
