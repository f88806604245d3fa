//! Bookkeeping for audio input devices: the enumerated list, the selected
//! index and the stream configuration bound to it.
//!
//! The host owns the actual audio backend.  It enumerates devices and probes
//! their supported configurations, and hands the results in as plain values:
//! a device is its human-readable name, a stream configuration is its channel
//! count and sample rate.  A device may disappear between enumeration and
//! use, so nothing here assumes the list is still accurate.

use vstd::prelude::*;
use crate::audio::error::AudioResult;
use crate::config::AudioConfig;
use crate::message::Message;
use crate::text::contains_default;
use crate::text::spec_contains_default;
use crate::text::str_eq;

verus! {

/// The plain content of a bound stream configuration: the device's first
/// supported input configuration, taken at its maximum sample rate.
#[derive(Clone, Copy, Debug, PartialEq, Eq, Structural)]
pub struct StreamSettings {
    pub channels: u16,
    pub sample_rate: u32,
}

/// The device manager of one audio session.
#[derive(Debug)]
pub struct AudioHandler {
    /// Names of the input devices, in enumeration order.
    pub input_devices: Vec<String>,
    /// Position of the selected device in `input_devices`.
    pub current_input_index: usize,
    /// The stream configuration bound by the last successful selection.
    pub config: Option<StreamSettings>,
    /// The session-immutable audio thresholds.
    pub audio_config: AudioConfig,
}

/// Whether `b` holds the same device list, selection and configuration as
/// `a`; this is what cloning a handler preserves.
pub open spec fn handler_equiv(a: &AudioHandler, b: &AudioHandler) -> bool {
    &&& a.input_devices.deep_view() == b.input_devices.deep_view()
    &&& a.current_input_index == b.current_input_index
    &&& a.config == b.config
    &&& a.audio_config == b.audio_config
}

impl Clone for AudioHandler {
    fn clone(&self) -> (res: Self)
        ensures
            handler_equiv(self, &res),
    {
        let input_devices = self.input_devices.clone();
        proof {
            assert forall|i: int|
                0 <= i < self.input_devices@.len() implies input_devices.deep_view()[i]
                == self.input_devices.deep_view()[i] by {
                assert(cloned::<String>(self.input_devices@[i], input_devices@[i]));
            }
            assert(input_devices.deep_view() =~= self.input_devices.deep_view());
        }
        Self {
            input_devices,
            current_input_index: self.current_input_index,
            config: self.config,
            audio_config: self.audio_config,
        }
    }
}

impl AudioHandler {
    pub fn new(audio_config: AudioConfig) -> (r: Self)
        ensures
            r.input_devices@.len() == 0,
            r.current_input_index == 0,
            r.config is None,
            r.audio_config == audio_config,
    {
        Self { input_devices: Vec::new(), current_input_index: 0, config: None, audio_config }
    }

    pub fn input_devices(&self) -> (r: &Vec<String>)
        ensures
            r == &self.input_devices,
    {
        &self.input_devices
    }

    pub fn audio_config(&self) -> (r: AudioConfig)
        ensures
            r == self.audio_config,
    {
        self.audio_config
    }

    /// Takes the outcome of a fresh device enumeration, or `None` when the
    /// enumeration failed.  On failure the previous list is silently retained
    /// (never cleared).  Either way, the (possibly stale) list is reported to
    /// subscribers through the returned message.
    pub fn update_input_devices(&mut self, enumeration: Option<Vec<String>>) -> (m: Message)
        ensures
            final(self).input_devices@ == match enumeration {
                Option::Some(devices) => devices@,
                Option::None => old(self).input_devices@,
            },
            final(self).current_input_index == old(self).current_input_index,
            final(self).config == old(self).config,
            final(self).audio_config == old(self).audio_config,
            m matches Message::AudioDevicesChanged(names) && names.deep_view() == final(self)
                .input_devices.deep_view(),
    {
        if let Some(devices) = enumeration {
            self.input_devices = devices;
        }
        let names = self.input_devices.clone();
        proof {
            assert forall|i: int|
                0 <= i < self.input_devices@.len() implies names.deep_view()[i]
                == self.input_devices.deep_view()[i] by {
                assert(cloned::<String>(self.input_devices@[i], names@[i]));
            }
            assert(names.deep_view() =~= self.input_devices.deep_view());
        }
        Message::AudioDevicesChanged(names)
    }

    /// The position of the first device whose name contains "default",
    /// ignoring ASCII case, or `None` when no device qualifies.  This is the
    /// device that automatic selection binds.
    pub fn find_default_device(&self) -> (r: Option<usize>)
        ensures
            r matches Option::Some(i) ==> {
                &&& i < self.input_devices@.len()
                &&& spec_contains_default(self.input_devices.deep_view()[i as int])
                &&& forall|j: int|
                    0 <= j < i ==> !spec_contains_default(self.input_devices.deep_view()[j])
            },
            r is None ==> forall|j: int|
                0 <= j < self.input_devices@.len() ==> !spec_contains_default(
                    self.input_devices.deep_view()[j],
                ),
    {
        let n = self.input_devices.len();
        let mut i: usize = 0;
        while i < n
            invariant
                i <= n,
                n == self.input_devices@.len(),
                forall|j: int|
                    0 <= j < i ==> !spec_contains_default(self.input_devices.deep_view()[j]),
            decreases n - i,
        {
            if contains_default(self.input_devices[i].as_str()) {
                return Some(i);
            }
            i = i + 1;
        }
        None
    }

    /// The position of the first device with exactly this name, or the
    /// "no such device" failure when the name is absent from the list.
    pub fn input_device_by_name(&self, name: &str) -> (r: Result<usize, AudioResult>)
        ensures
            r matches Ok(i) ==> {
                &&& i < self.input_devices@.len()
                &&& self.input_devices.deep_view()[i as int] == name@
                &&& forall|j: int| 0 <= j < i ==> self.input_devices.deep_view()[j] != name@
            },
            r matches Err(e) ==> {
                &&& e == AudioResult::NoDevice
                &&& forall|j: int|
                    0 <= j < self.input_devices@.len() ==> self.input_devices.deep_view()[j]
                        != name@
            },
    {
        let n = self.input_devices.len();
        let mut i: usize = 0;
        while i < n
            invariant
                i <= n,
                n == self.input_devices@.len(),
                forall|j: int| 0 <= j < i ==> self.input_devices.deep_view()[j] != name@,
            decreases n - i,
        {
            if str_eq(self.input_devices[i].as_str(), name) {
                return Ok(i);
            }
            i = i + 1;
        }
        Err(AudioResult::NoDevice)
    }

    /// Selects the device at `index` and binds the stream configuration the
    /// host probed for it (`None` when the device is gone or supports no
    /// input configuration).  The selection succeeds only when the device
    /// exists and a configuration was found; on failure the bound
    /// configuration is cleared.
    pub fn set_current_input_device(&mut self, index: usize, probe: Option<StreamSettings>) -> (r:
        bool)
        ensures
            final(self).current_input_index == index,
            final(self).input_devices == old(self).input_devices,
            final(self).audio_config == old(self).audio_config,
            r == (index < old(self).input_devices@.len() && probe is Some),
            final(self).config == if r {
                probe
            } else {
                Option::<StreamSettings>::None
            },
    {
        self.current_input_index = index;
        if index < self.input_devices.len() {
            if let Some(settings) = probe {
                self.config = Some(settings);
                return true;
            }
        }
        self.config = None;
        false
    }
}

} // verus!
