//! The messages that flow over the session's bus, from the audio callback,
//! the device tasks and the mouse tracker to the consuming UI layer.  Each
//! message is created at the point of detection, consumed exactly once by the
//! drain loop, and never mutated after creation.

use vstd::prelude::*;
use crate::audio::handler::AudioHandler;
use crate::audio::status::AudioStatus;
use crate::config::Config;

verus! {

#[derive(Debug)]
pub enum Message {
    /// Hand the device manager to the session task so it can open a stream.
    SetupAudio(AudioHandler),
    /// The session status changed; `Polling` carries the handler so the task
    /// that processes the message can retry with it.
    UpdateAudioStatus(AudioStatus, Option<AudioHandler>),
    /// A late subscriber asks for a handle to the stream of future messages;
    /// the host answers on the subscriber's own reply channel.
    OutsideListenerReady,
    /// The grid cell under the cursor changed.
    CurrentImageChanged,
    /// The speaking signal changed, in thousandths of the 0..1 scale.
    SensitivityChanged(u32),
    /// The magnitude of one processed block, emitted for every block.
    MagnitudeChanged(i32),
    /// The configuration was replaced.
    ConfigChanged(Config),
    /// The device list was (re-)enumerated; carries the current names.
    AudioDevicesChanged(Vec<String>),
}

} // verus!
