use game_of_life::simulation::components::{Cell, CellState};
use game_of_life::simulation::grid::{is_in_grid, Grid, OutOfRange, CELL_COUNT, GRID_SIZE};

#[test]
fn grid_has_side_one_hundred() {
    assert_eq!(GRID_SIZE, 100);
    assert_eq!(CELL_COUNT, 10_000);
    assert_eq!(CELL_COUNT, (GRID_SIZE * GRID_SIZE) as usize);
}

#[test]
fn new_grid_is_empty_everywhere() {
    let grid = Grid::new();
    for y in 0..GRID_SIZE {
        for x in 0..GRID_SIZE {
            assert_eq!(grid.get(x, y), Ok(CellState::Empty));
        }
    }
}

#[test]
fn default_grid_is_empty_everywhere() {
    let grid = Grid::default();
    for y in 0..GRID_SIZE {
        for x in 0..GRID_SIZE {
            assert_eq!(grid.get(x, y), Ok(CellState::Empty));
        }
    }
}

#[test]
fn is_in_grid_accepts_the_corners() {
    assert!(is_in_grid(0, 0));
    assert!(is_in_grid(99, 0));
    assert!(is_in_grid(0, 99));
    assert!(is_in_grid(99, 99));
    assert!(is_in_grid(50, 50));
}

#[test]
fn is_in_grid_refuses_what_lies_outside() {
    assert!(!is_in_grid(-1, 0));
    assert!(!is_in_grid(0, -1));
    assert!(!is_in_grid(100, 0));
    assert!(!is_in_grid(0, 100));
    assert!(!is_in_grid(100, 100));
    assert!(!is_in_grid(i32::MIN, i32::MIN));
    assert!(!is_in_grid(i32::MAX, i32::MAX));
}

#[test]
fn set_then_get_gives_the_state() {
    let mut grid = Grid::new();
    assert_eq!(grid.set(5, 7, CellState::Alive), Ok(()));
    assert_eq!(grid.get(5, 7), Ok(CellState::Alive));
    assert_eq!(grid.set(5, 7, CellState::Dead), Ok(()));
    assert_eq!(grid.get(5, 7), Ok(CellState::Dead));
    assert_eq!(grid.set(5, 7, CellState::Empty), Ok(()));
    assert_eq!(grid.get(5, 7), Ok(CellState::Empty));
}

#[test]
fn set_changes_one_cell_only() {
    let mut grid = Grid::new();
    assert_eq!(grid.set(5, 7, CellState::Alive), Ok(()));
    for y in 0..GRID_SIZE {
        for x in 0..GRID_SIZE {
            let expected = if (x, y) == (5, 7) { CellState::Alive } else { CellState::Empty };
            assert_eq!(grid.get(x, y), Ok(expected));
        }
    }
}

#[test]
fn set_keeps_rows_and_columns_apart() {
    let mut grid = Grid::new();
    assert_eq!(grid.set(3, 2, CellState::Alive), Ok(()));
    assert_eq!(grid.get(3, 2), Ok(CellState::Alive));
    assert_eq!(grid.get(2, 3), Ok(CellState::Empty));
}

#[test]
fn set_reaches_the_corners() {
    let mut grid = Grid::new();
    for (x, y) in [(0, 0), (99, 0), (0, 99), (99, 99)] {
        assert_eq!(grid.set(x, y, CellState::Alive), Ok(()));
        assert_eq!(grid.get(x, y), Ok(CellState::Alive));
    }
}

#[test]
fn get_outside_is_out_of_range() {
    let grid = Grid::new();
    assert_eq!(grid.get(-1, 0), Err(OutOfRange { x: -1, y: 0 }));
    assert_eq!(grid.get(0, -1), Err(OutOfRange { x: 0, y: -1 }));
    assert_eq!(grid.get(100, 0), Err(OutOfRange { x: 100, y: 0 }));
    assert_eq!(grid.get(0, 100), Err(OutOfRange { x: 0, y: 100 }));
    assert_eq!(grid.get(i32::MAX, i32::MIN), Err(OutOfRange { x: i32::MAX, y: i32::MIN }));
}

#[test]
fn set_outside_is_out_of_range_and_changes_nothing() {
    let mut grid = Grid::new();
    assert_eq!(grid.set(-1, 0, CellState::Alive), Err(OutOfRange { x: -1, y: 0 }));
    assert_eq!(grid.set(0, -1, CellState::Alive), Err(OutOfRange { x: 0, y: -1 }));
    assert_eq!(grid.set(100, 99, CellState::Alive), Err(OutOfRange { x: 100, y: 99 }));
    assert_eq!(grid.set(99, 100, CellState::Alive), Err(OutOfRange { x: 99, y: 100 }));
    for y in 0..GRID_SIZE {
        for x in 0..GRID_SIZE {
            assert_eq!(grid.get(x, y), Ok(CellState::Empty));
        }
    }
}

#[test]
fn column_one_hundred_is_not_the_next_row() {
    let mut grid = Grid::new();
    assert_eq!(grid.set(0, 1, CellState::Alive), Ok(()));
    assert_eq!(grid.get(100, 0), Err(OutOfRange { x: 100, y: 0 }));
    assert_eq!(grid.set(100, 0, CellState::Dead), Err(OutOfRange { x: 100, y: 0 }));
    assert_eq!(grid.get(0, 1), Ok(CellState::Alive));
}

#[test]
fn clone_holds_the_same_cells_and_is_independent() {
    let mut grid = Grid::new();
    assert_eq!(grid.set(1, 2, CellState::Alive), Ok(()));
    assert_eq!(grid.set(3, 4, CellState::Dead), Ok(()));
    let mut copy = grid.clone();
    for y in 0..GRID_SIZE {
        for x in 0..GRID_SIZE {
            assert_eq!(copy.get(x, y), grid.get(x, y));
        }
    }
    assert_eq!(copy.set(1, 2, CellState::Empty), Ok(()));
    assert_eq!(grid.get(1, 2), Ok(CellState::Alive));
    assert_eq!(copy.get(1, 2), Ok(CellState::Empty));
}

#[test]
fn only_alive_is_alive() {
    assert!(CellState::Alive.is_alive());
    assert!(!CellState::Dead.is_alive());
    assert!(!CellState::Empty.is_alive());
}

#[test]
fn cell_holds_its_state() {
    let cell = Cell { state: CellState::Dead };
    assert_eq!(cell.state, CellState::Dead);
    assert_eq!(cell, Cell { state: CellState::Dead });
    assert_ne!(cell, Cell { state: CellState::Empty });
}
