//! Conway's Game of Life on a fixed square grid, with cells that can be
//! drawn and erased by hand while the automaton rests.
//!
//! `simulation` holds the engine: the grid and its cells, the transition
//! rule, the edit requests and the systems that apply them tick by tick.
//! `ui` holds the run-state machine and the decisions of the three buttons
//! that drive it.
//!
//! A cell's live neighbours are counted among its four diagonal neighbours
//! only; `simulation::rules` says how, and what follows from the count.
//!
//! The engine reads no clock, no pointer and no window. Whoever drives it
//! hands it grid coordinates, button states and the run flag, and gets back
//! the cells that changed.

pub mod simulation;
pub mod ui;
