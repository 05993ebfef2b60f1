//! The grid: a fixed square array of cells, addressed by `(x, y)` or by the
//! row-major index `x + y * GRID_SIZE`.

use vstd::prelude::*;

use crate::simulation::components::{Cell, CellState};

verus! {

/// Side length of the grid.
pub const GRID_SIZE: i32 = 100;

/// Number of cells of the grid: `GRID_SIZE * GRID_SIZE`.
pub const CELL_COUNT: usize = 10_000;

/// Whether `(x, y)` names a cell of the grid.
pub open spec fn in_grid(x: int, y: int) -> bool {
    0 <= x < GRID_SIZE && 0 <= y < GRID_SIZE
}

/// The row-major index of the cell `(x, y)`.
pub open spec fn cell_id(x: int, y: int) -> int {
    x + y * GRID_SIZE
}

/// The column of the cell with index `id`.
pub open spec fn cell_x(id: int) -> int {
    id % (GRID_SIZE as int)
}

/// The row of the cell with index `id`.
pub open spec fn cell_y(id: int) -> int {
    id / (GRID_SIZE as int)
}

/// What a cell that lies outside the grid is answered with.
#[derive(Clone, Copy, Debug, PartialEq, Eq, Structural)]
pub struct OutOfRange {
    pub x: i32,
    pub y: i32,
}

/// The grid of cells. It is created with every cell `Empty` and never grows
/// or shrinks.
///
/// Its view is the sequence of the cells' states in row-major order, always
/// `CELL_COUNT` long.
#[derive(Debug)]
pub struct Grid {
    cells: Vec<Cell>,
}

impl View for Grid {
    type V = Seq<CellState>;

    closed spec fn view(&self) -> Seq<CellState> {
        Seq::new(CELL_COUNT as nat, |id: int| self.cells@[id].state)
    }
}

impl Default for Grid {
    /// A grid whose cells are all `Empty`.
    fn default() -> (grid: Grid)
        ensures
            grid@ == Seq::new(CELL_COUNT as nat, |id: int| CellState::Empty),
    {
        Grid::new()
    }
}

impl Clone for Grid {
    /// A grid that holds the same state for every cell.
    fn clone(&self) -> (copy: Grid)
        ensures
            copy@ == self@,
    {
        proof {
            use_type_invariant(self);
        }
        let mut cells: Vec<Cell> = Vec::new();
        while cells.len() < CELL_COUNT
            invariant
                self.cells@.len() == CELL_COUNT,
                cells@.len() <= CELL_COUNT,
                forall|id: int| 0 <= id < cells@.len() ==> cells@[id] == self.cells@[id],
            decreases CELL_COUNT - cells@.len(),
        {
            cells.push(self.cells[cells.len()]);
        }
        Grid { cells }
    }
}

/// Whether `(x, y)` names a cell of the grid.
pub fn is_in_grid(x: i32, y: i32) -> (inside: bool)
    ensures
        inside == in_grid(x as int, y as int),
{
    0 <= x && x < GRID_SIZE && 0 <= y && y < GRID_SIZE
}

/// Every cell of the grid has an index below `CELL_COUNT`, and its column and
/// row are found again from that index.
pub proof fn lemma_cell_id(x: int, y: int)
    requires
        in_grid(x, y),
    ensures
        0 <= cell_id(x, y) < CELL_COUNT,
        cell_x(cell_id(x, y)) == x,
        cell_y(cell_id(x, y)) == y,
{
}

/// Every index below `CELL_COUNT` is the index of one cell of the grid: the
/// cell at its column and row. With `lemma_cell_id`: the cells and the
/// indices below `CELL_COUNT` correspond one to one, and there are
/// `GRID_SIZE * GRID_SIZE` of them.
pub proof fn lemma_cell_coordinates(id: int)
    requires
        0 <= id < CELL_COUNT,
    ensures
        in_grid(cell_x(id), cell_y(id)),
        cell_id(cell_x(id), cell_y(id)) == id,
        CELL_COUNT == GRID_SIZE * GRID_SIZE,
{
}

impl Grid {
    #[verifier::type_invariant]
    spec fn well_formed(&self) -> bool {
        self.cells@.len() == CELL_COUNT
    }

    /// The view of a grid has one state for each cell.
    pub broadcast proof fn lemma_view_len(&self)
        ensures
            #[trigger] self@.len() == CELL_COUNT,
    {
    }

    /// A grid whose cells are all `Empty`.
    pub fn new() -> (grid: Grid)
        ensures
            grid@ == Seq::new(CELL_COUNT as nat, |id: int| CellState::Empty),
    {
        let mut cells: Vec<Cell> = Vec::new();
        while cells.len() < CELL_COUNT
            invariant
                cells@.len() <= CELL_COUNT,
                forall|id: int| 0 <= id < cells@.len() ==> cells@[id].state == CellState::Empty,
            decreases CELL_COUNT - cells@.len(),
        {
            cells.push(Cell { state: CellState::Empty });
        }
        Grid { cells }
    }

    /// The state of the cell `(x, y)`, or `OutOfRange` where the grid has no
    /// such cell.
    pub fn get(&self, x: i32, y: i32) -> (found: Result<CellState, OutOfRange>)
        ensures
            in_grid(x as int, y as int) ==> found == Ok::<CellState, OutOfRange>(
                self@[cell_id(x as int, y as int)],
            ),
            !in_grid(x as int, y as int) ==> found == Err::<CellState, OutOfRange>(
                OutOfRange { x, y },
            ),
    {
        if is_in_grid(x, y) {
            Ok(self.state((x + y * GRID_SIZE) as usize))
        } else {
            Err(OutOfRange { x, y })
        }
    }

    /// Sets the cell `(x, y)` to `state` and leaves every other cell as it
    /// was; answers `OutOfRange`, and changes nothing, where the grid has no
    /// such cell.
    pub fn set(&mut self, x: i32, y: i32, state: CellState) -> (done: Result<(), OutOfRange>)
        ensures
            in_grid(x as int, y as int) ==> done == Ok::<(), OutOfRange>(()) && final(self)@
                == old(self)@.update(cell_id(x as int, y as int), state),
            !in_grid(x as int, y as int) ==> done == Err::<(), OutOfRange>(OutOfRange { x, y })
                && final(self)@ == old(self)@,
    {
        if is_in_grid(x, y) {
            self.put((x + y * GRID_SIZE) as usize, state);
            Ok(())
        } else {
            Err(OutOfRange { x, y })
        }
    }

    /// The state of the cell with index `id`.
    pub(crate) fn state(&self, id: usize) -> (state: CellState)
        requires
            id < CELL_COUNT,
        ensures
            state == self@[id as int],
    {
        proof {
            use_type_invariant(self);
        }
        self.cells[id].state
    }

    /// Sets the cell with index `id` to `state`.
    pub(crate) fn put(&mut self, id: usize, state: CellState)
        requires
            id < CELL_COUNT,
        ensures
            final(self)@ == old(self)@.update(id as int, state),
    {
        proof {
            use_type_invariant(&*self);
        }
        self.cells[id] = Cell { state };
    }
}

} // verus!
