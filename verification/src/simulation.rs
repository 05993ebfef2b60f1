//! The simulation engine: cells, the grid that owns them, the transition
//! rule and the systems that act on the grid once per tick.

pub mod changes;
pub mod components;
pub mod editing;
pub mod grid;
pub mod laws;
pub mod resources;
pub mod rules;
pub mod systems;
