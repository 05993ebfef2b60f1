//! The run controls: the three buttons, the run-state machine they drive and
//! what a button answers to the pointer.

pub mod components;
pub mod styles;
pub mod systems;
