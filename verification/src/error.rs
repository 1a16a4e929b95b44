//! What can go wrong between the sequencer and the MIDI transport.

use vstd::prelude::*;

verus! {

/// A failure at the boundary to the MIDI transport. The variants with a
/// number carry the status code that the transport reported.
#[derive(Clone, Copy, Debug, PartialEq, Eq, Structural)]
pub enum AppError {
    DestinationNotFoundError,
    DisplayNameError,
    MidiClientError(i32),
    MidiPortError(i32),
    NoControllerFound,
    OutputSendError(i32),
    SourceNotFoundError,
    SourceListenError(i32),
    SourceUniqueIdError,
}

} // verus!
