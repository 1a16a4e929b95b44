//! What a user, or the clock, asks of the sequencer.

use crate::state::PlayMode;
use vstd::prelude::*;

verus! {

/// One request to the sequencer, decoded from a button press or raised by the
/// timer.
#[derive(Clone, Copy, Debug, PartialEq, Eq, Structural)]
pub enum Action {
    /// Nothing to do.
    Noop,
    /// Toggle row `y` of the step in column `x` of the active layer.
    GridToggle { x: u32, y: u32 },
    /// Make the layer at `pos` the active one.
    LayerSelect { pos: u32 },
    /// Switch the transport to the given mode.
    PlayModeChange(PlayMode),
    /// Make the section at `pos` the active one.
    SectionSelect { pos: u32 },
    /// One tick of the clock.
    TimeInterval,
}

} // verus!
