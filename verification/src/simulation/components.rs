//! The tri-state cell.

use vstd::prelude::*;

verus! {

/// The state of one cell of the grid.
///
/// `Dead` and `Empty` differ only in how they are drawn: the transition rule
/// treats both as "not alive".
#[derive(Clone, Copy, Debug, PartialEq, Eq, Structural)]
pub enum CellState {
    /// Takes part in the automaton.
    Alive,
    /// Was alive and died from the transition rule.
    Dead,
    /// Never touched, or erased by hand.
    Empty,
}

impl CellState {
    /// Whether the transition rule counts this state as a live neighbour.
    pub open spec fn alive(self) -> bool {
        self is Alive
    }

    /// Whether the transition rule counts this state as a live neighbour.
    pub fn is_alive(&self) -> (alive: bool)
        ensures
            alive == self.alive(),
    {
        match self {
            CellState::Alive => true,
            CellState::Dead | CellState::Empty => false,
        }
    }
}

/// One cell of the grid. Its state is all the engine tracks.
#[derive(Clone, Copy, Debug, PartialEq, Eq, Structural)]
pub struct Cell {
    pub state: CellState,
}

} // verus!
