//! The state that the systems share: the two pending edit requests and the
//! run flag.

use vstd::prelude::*;

verus! {

/// The pending draw request: the grid coordinate under the pointer while its
/// primary button was down, or none. A single slot: a later request
/// overwrites an earlier one that was not consumed yet.
///
/// The coordinate is whatever the pointer gave and may lie outside the grid.
#[derive(Clone, Copy, Debug, PartialEq, Eq)]
pub struct MouseWorldPositionDraw(pub Option<(i32, i32)>);

/// The pending erase request: the grid coordinate under the pointer while its
/// secondary button was down, or none. A single slot, as the draw request.
#[derive(Clone, Copy, Debug, PartialEq, Eq)]
pub struct MouseWorldPositionErase(pub Option<(i32, i32)>);

/// The run flag: `true` while the automaton advances, `false` while the grid
/// may be edited. It starts as `false`.
#[derive(Clone, Copy, Debug, PartialEq, Eq, Structural)]
pub struct IsSimulationRunning(pub bool);

impl Default for MouseWorldPositionDraw {
    fn default() -> (slot: MouseWorldPositionDraw)
        ensures
            slot.0 is None,
    {
        MouseWorldPositionDraw(None)
    }
}

impl Default for MouseWorldPositionErase {
    fn default() -> (slot: MouseWorldPositionErase)
        ensures
            slot.0 is None,
    {
        MouseWorldPositionErase(None)
    }
}

impl Default for IsSimulationRunning {
    fn default() -> (flag: IsSimulationRunning)
        ensures
            !flag.0,
    {
        IsSimulationRunning(false)
    }
}

} // verus!
