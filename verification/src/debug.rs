//! The debug view, switched on and off with a key.
use vstd::prelude::*;

verus! {

#[derive(Clone, Copy, Debug, Default, PartialEq, Eq, Hash, Structural)]
pub enum DebugState {
    #[default]
    ViewDisabled,
    ViewEnabled,
}

impl DebugState {
    /// The state after the toggle key is pressed.
    pub fn toggled(self) -> (next: DebugState)
        ensures
            next != self,
    {
        match self {
            DebugState::ViewDisabled => DebugState::ViewEnabled,
            DebugState::ViewEnabled => DebugState::ViewDisabled,
        }
    }
}

} // verus!
