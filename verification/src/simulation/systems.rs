//! The systems: what happens to the grid, the pending requests and the run
//! flag in one tick.
//!
//! The run flag gates the grid. While it is set, only `simulation_step`
//! changes the grid; while it is not, only `cell_interaction` does.

use vstd::prelude::*;

use crate::simulation::changes::{
    change_at, changed_cells, changes_below, lemma_changes_skip_unchanged, lemma_no_changes,
    CellChange,
};
use crate::simulation::components::CellState;
use crate::simulation::editing::{edited, painted};
use crate::simulation::grid::{cell_id, in_grid, is_in_grid, Grid, CELL_COUNT, GRID_SIZE};
use crate::simulation::resources::{
    IsSimulationRunning, MouseWorldPositionDraw, MouseWorldPositionErase,
};
use crate::simulation::rules::{next_generation, snapshot, transition, LifeGrid};
use crate::ui::systems::SimulationState;

verus! {

/// Takes up the pointer's requests: where the pointer is over the
/// coordinate `cursor`, its primary button fills the draw request and its
/// secondary button the erase request, each overwriting what its slot held.
/// While the automaton runs nothing is taken up.
pub fn set_cursor_world_position(
    cursor: Option<(i32, i32)>,
    left_pressed: bool,
    right_pressed: bool,
    mouse_world_pos_draw: &mut MouseWorldPositionDraw,
    mouse_world_pos_erase: &mut MouseWorldPositionErase,
    is_running: &IsSimulationRunning,
)
    ensures
        final(mouse_world_pos_draw).0 == (if !is_running.0 && cursor is Some && left_pressed {
            cursor
        } else {
            old(mouse_world_pos_draw).0
        }),
        final(mouse_world_pos_erase).0 == (if !is_running.0 && cursor is Some && right_pressed {
            cursor
        } else {
            old(mouse_world_pos_erase).0
        }),
{
    if !is_running.0 {
        if let Some(pos) = cursor {
            if left_pressed {
                *mouse_world_pos_draw = MouseWorldPositionDraw(Some(pos));
            }
            if right_pressed {
                *mouse_world_pos_erase = MouseWorldPositionErase(Some(pos));
            }
        }
    }
}

/// Sets the cell that `target` names to `state`, if it names one of the
/// grid. Returns the index of that cell and the state it had.
fn paint(grid: &mut Grid, target: Option<(i32, i32)>, state: CellState) -> (painted_cell: Option<
    (usize, CellState),
>)
    ensures
        final(grid)@ == painted(old(grid)@, target, state),
        match target {
            Some((x, y)) if in_grid(x as int, y as int) => painted_cell == Some(
                (cell_id(x as int, y as int) as usize, old(grid)@[cell_id(x as int, y as int)]),
            ),
            _ => painted_cell is None,
        },
        painted_cell matches Some((id, _)) ==> id < CELL_COUNT,
{
    match target {
        Some((x, y)) => {
            if is_in_grid(x, y) {
                let id: usize = (x + y * GRID_SIZE) as usize;
                let was = grid.state(id);
                grid.put(id, state);
                Some((id, was))
            } else {
                None
            }
        },
        None => None,
    }
}

/// Adds to `changes` the change of the cell with index `id`, if its state is
/// no longer `was`.
fn note_change(grid: &Grid, id: usize, was: CellState, changes: &mut Vec<CellChange>)
    requires
        id < CELL_COUNT,
    ensures
        final(changes)@ == (if grid@[id as int] != was {
            old(changes)@.push(change_at(grid@, id as int))
        } else {
            old(changes)@
        }),
{
    let state = grid.state(id);
    if state != was {
        let x: i32 = (id as i32) % GRID_SIZE;
        let y: i32 = (id as i32) / GRID_SIZE;
        changes.push(CellChange { x, y, state });
    }
}

/// Applies the pending edit requests and clears them.
///
/// While the automaton rests, the draw request sets its cell to `Alive` and
/// then the erase request sets its cell to `Empty`; a request for a
/// coordinate outside the grid is ignored. While the automaton runs, the
/// grid stays as it is. Either way both requests are gone afterwards.
///
/// Returns the cells whose state changed, in the order of their indices.
pub fn cell_interaction(
    grid: &mut Grid,
    mouse_world_pos_draw: &mut MouseWorldPositionDraw,
    mouse_world_pos_erase: &mut MouseWorldPositionErase,
    is_running: &IsSimulationRunning,
) -> (changes: Vec<CellChange>)
    ensures
        final(mouse_world_pos_draw).0 is None,
        final(mouse_world_pos_erase).0 is None,
        is_running.0 ==> final(grid)@ == old(grid)@,
        !is_running.0 ==> final(grid)@ == edited(
            old(grid)@,
            old(mouse_world_pos_draw).0,
            old(mouse_world_pos_erase).0,
        ),
        changes@ == changed_cells(old(grid)@, final(grid)@),
{
    broadcast use Grid::lemma_view_len;

    let mouse_draw = mouse_world_pos_draw.0.take();
    let mouse_erase = mouse_world_pos_erase.0.take();
    let ghost before = grid@;
    let mut changes: Vec<CellChange> = Vec::new();

    if !is_running.0 && (mouse_draw.is_some() || mouse_erase.is_some()) {
        let drawn = paint(grid, mouse_draw, CellState::Alive);
        let erased = paint(grid, mouse_erase, CellState::Empty);
        match (drawn, erased) {
            (Some((draw_id, draw_was)), Some((erase_id, erase_was))) => {
                // The cell that comes first, and what each was before the edits.
                let (low, low_was, high, high_was) = if draw_id <= erase_id {
                    (draw_id, draw_was, erase_id, erase_was)
                } else {
                    (erase_id, erase_was, draw_id, draw_was)
                };
                proof {
                    lemma_changes_skip_unchanged(before, grid@, 0, low as int);
                }
                note_change(grid, low, low_was, &mut changes);
                if low < high {
                    proof {
                        lemma_changes_skip_unchanged(before, grid@, low + 1, high as int);
                    }
                    note_change(grid, high, high_was, &mut changes);
                }
                proof {
                    lemma_changes_skip_unchanged(before, grid@, high + 1, CELL_COUNT as int);
                }
            },
            (Some((id, was)), None) | (None, Some((id, was))) => {
                proof {
                    lemma_changes_skip_unchanged(before, grid@, 0, id as int);
                }
                note_change(grid, id, was, &mut changes);
                proof {
                    lemma_changes_skip_unchanged(before, grid@, id + 1, CELL_COUNT as int);
                }
            },
            (None, None) => {
                proof {
                    lemma_no_changes(before);
                }
            },
        }
    } else {
        proof {
            lemma_no_changes(before);
        }
    }
    changes
}

/// Advances the grid by one generation while the automaton runs, and leaves
/// it as it is while the automaton rests.
///
/// The alive / not-alive flags of all cells are taken first, and every cell's
/// neighbours are counted on those flags, so that the next state of each cell
/// comes from the generation before the step and never from a cell that the
/// step has already updated.
///
/// Returns the cells whose state changed, in the order of their indices.
pub fn simulation_step(grid: &mut Grid, is_running: &IsSimulationRunning) -> (changes: Vec<
    CellChange,
>)
    ensures
        is_running.0 ==> final(grid)@ == next_generation(old(grid)@),
        !is_running.0 ==> final(grid)@ == old(grid)@,
        changes@ == changed_cells(old(grid)@, final(grid)@),
{
    broadcast use Grid::lemma_view_len;

    let ghost before = grid@;
    let mut changes: Vec<CellChange> = Vec::new();
    if is_running.0 {
        let life_grid = LifeGrid::capture(grid);
        let ghost after = next_generation(before);
        let mut id: usize = 0;
        while id < CELL_COUNT
            invariant
                id <= CELL_COUNT,
                before.len() == CELL_COUNT,
                grid@.len() == CELL_COUNT,
                life_grid@ == snapshot(before),
                after == next_generation(before),
                forall|done: int| 0 <= done < id ==> grid@[done] == after[done],
                forall|ahead: int| id <= ahead < CELL_COUNT ==> grid@[ahead] == before[ahead],
                changes@ == changes_below(before, after, id as int),
            decreases CELL_COUNT - id,
        {
            let x: i32 = (id as i32) % GRID_SIZE;
            let y: i32 = (id as i32) / GRID_SIZE;
            let neighbour_count: u8 = life_grid.neighbour_count(x, y);
            let state = grid.state(id);
            let next = transition(state, neighbour_count);
            if next != state {
                grid.put(id, next);
                changes.push(CellChange { x, y, state: next });
            }
            id += 1;
        }
        assert(grid@ =~= after);
    } else {
        proof {
            lemma_no_changes(before);
        }
    }
    changes
}

/// Sets the run flag when the run state is `Start`.
pub fn set_simulation(start_sim: &mut IsSimulationRunning, sim_state: &SimulationState)
    ensures
        final(start_sim).0 == (*sim_state == SimulationState::Start || old(start_sim).0),
{
    if *sim_state == SimulationState::Start {
        start_sim.0 = true;
    }
}

/// Clears the run flag when the run state is `Stop`.
pub fn unset_simulation(start_sim: &mut IsSimulationRunning, sim_state: &SimulationState)
    ensures
        final(start_sim).0 == (*sim_state != SimulationState::Stop && old(start_sim).0),
{
    if *sim_state == SimulationState::Stop {
        start_sim.0 = false;
    }
}

} // verus!
