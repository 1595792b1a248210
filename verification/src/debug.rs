//! Whether the debug window is on show.

use vstd::prelude::*;

verus! {

/// Tracks whether the debug window is visible.
#[derive(Clone, Copy, PartialEq, Eq, Structural, Debug)]
pub struct DebugWindowState {
    /// Whether the window is on show.
    pub visible: bool,
}

impl Default for DebugWindowState {
    fn default() -> (state: DebugWindowState)
        ensures
            state == (DebugWindowState { visible: false }),
    {
        DebugWindowState { visible: false }
    }
}

/// Flips the visibility of the debug window on the tick on which its key
/// has just been pressed, and leaves it alone on every other tick.
pub fn toggle_debug_window(toggle_key_pressed: bool, state: &mut DebugWindowState)
    ensures
        final(state).visible == (old(state).visible != toggle_key_pressed),
{
    if toggle_key_pressed {
        state.visible = !state.visible;
    }
}

} // verus!
