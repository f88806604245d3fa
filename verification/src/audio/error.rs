use vstd::prelude::*;

verus! {

/// How an audio session attempt ended.  `Closed` is the one fully healthy
/// outcome; `DeviceNotAvailable` is a clean end too, since a device may vanish
/// at any moment and the session is then re-set-up.
#[derive(Clone, Copy, Debug, PartialEq, Eq, Structural)]
pub enum AudioResult {
    /// The backend failed while the stream was being listened to.
    Play,
    /// The session ended naturally: the owning channel closed.
    Closed,
    /// No stream configuration was bound for the selected device.
    NoConfig,
    /// The backend rejected the stream parameters.
    BuildStreamError,
    /// The device was disconnected while or before it was being used.
    DeviceNotAvailable,
    /// A backend-specific runtime failure in the running stream.
    StreamError,
    /// No device with the requested name was found.
    NoDevice,
}

impl AudioResult {
    /// How a runtime stream error is classified: a disconnected device is a
    /// recoverable condition of its own, everything backend-specific is a
    /// generic stream error.
    pub fn from_stream_error(device_not_available: bool) -> (r: Self)
        ensures
            r == if device_not_available {
                AudioResult::DeviceNotAvailable
            } else {
                AudioResult::StreamError
            },
    {
        if device_not_available {
            AudioResult::DeviceNotAvailable
        } else {
            AudioResult::StreamError
        }
    }
}

} // verus!
