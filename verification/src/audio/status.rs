use vstd::prelude::*;

verus! {

/// The lifecycle of one audio session.  Exactly one status is current at a
/// time, and transitions are serialised through the session owner.
#[derive(Clone, Copy, Debug, PartialEq, Eq, Structural)]
pub enum AudioStatus {
    /// A stream is open and healthy.
    Ready,
    /// The stream ended naturally or the device vanished; eligible for
    /// re-setup.
    Closed,
    /// Actively retrying device selection, waiting for a device to appear.
    Polling,
}

} // verus!
