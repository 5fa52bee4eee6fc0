//! The failures the plug-in distinguishes.

use vstd::prelude::*;

verus! {

/// Why a step of the plug-in did not run to its ordinary end.
#[derive(Clone, Copy, Debug, PartialEq, Eq, Structural)]
pub enum PluginError {
    /// The packet was empty, or ended before the length header it announces.
    MalformedPacket,
    /// The host gave no usable answer to a size query.
    ResolutionFailure,
    /// The host knows no entity under the serial asked for.
    AccessorMiss,
    /// A handler was registered after the first packet had been received.
    RegistrationClosed,
}

} // verus!
