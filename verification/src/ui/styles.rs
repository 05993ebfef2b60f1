//! How a button looks.

use vstd::prelude::*;

verus! {

/// The background of a button, by what the pointer does with it.
#[derive(Clone, Copy, Debug, PartialEq, Eq, Structural)]
pub enum ButtonColor {
    /// The pointer is elsewhere.
    Normal,
    /// The pointer is over the button.
    Hovered,
    /// The button is held down.
    Pressed,
}

} // verus!
