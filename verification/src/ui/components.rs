//! The buttons of the control bar.

use vstd::prelude::*;

verus! {

/// What a button of the control bar asks for.
#[derive(Clone, Copy, Debug, PartialEq, Eq, Structural)]
pub enum ButtonType {
    /// Let the automaton run.
    Play,
    /// Pause the automaton, so that the grid can be edited.
    Stop,
    /// Leave the program.
    Exit,
}

/// A button of the control bar.
#[derive(Clone, Copy, Debug, PartialEq, Eq, Structural)]
pub struct ClassicButton(pub ButtonType);

} // verus!
