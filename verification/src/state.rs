//! The shared presentation state: which sprite is current, how loud the
//! microphone is, what the session status is, and the grid geometry that maps
//! a cursor position to a sprite.

use vstd::prelude::*;
use crate::audio::handler::AudioHandler;
use crate::audio::sensitivity::SENSITIVITY_SCALE;
use crate::audio::status::AudioStatus;
use crate::message::Message;
use crate::numbers::TwoInts;

verus! {

/// The row-major index of grid cell `(x, y)` on a grid `width` cells wide.
pub fn to_2d_index(x: i32, y: i32, width: i32) -> (r: usize)
    requires
        0 <= x,
        0 <= y,
        0 <= width,
        y * width + x <= i32::MAX,
    ensures
        r == y * width + x,
{
    proof {
        vstd::arithmetic::mul::lemma_mul_nonnegative(y as int, width as int);
    }
    (y * width + x) as usize
}

#[derive(Debug)]
pub struct State {
    /// Row-major index of the grid cell under the cursor.
    pub current_image: usize,
    /// The speaking signal, in thousandths of full scale.
    pub sensitivity: u32,
    pub audio_status: AudioStatus,
    /// Names reported by the latest device enumeration.
    pub audio_devices: Vec<String>,
    /// Pixel size of one grid cell.
    pub section_size: (i32, i32),
    /// How many cells wide the grid is.
    pub x_sections: i32,
    /// How many cells tall the grid is.
    pub y_sections: i32,
}

/// What the host must do after dispatching one message to the state.
#[derive(Debug)]
pub enum DispatchAction {
    /// Nothing beyond forwarding the message to the presentation layer.
    Nothing,
    /// Start a session with this handler: enumerate devices, select, play.
    StartSession(AudioHandler),
    /// Sleep the backoff, re-enumerate, and attempt the session again with
    /// this handler.
    ScheduleRetry(AudioHandler),
}

impl State {
    /// The grid is non-degenerate and the current cell lies on it; the
    /// speaking signal is on its scale.
    pub open spec fn wf(&self) -> bool {
        &&& 0 < self.section_size.0
        &&& 0 < self.section_size.1
        &&& 0 < self.x_sections
        &&& 0 < self.y_sections
        &&& self.x_sections * self.y_sections <= i32::MAX
        &&& self.current_image < self.x_sections * self.y_sections
        &&& self.sensitivity <= SENSITIVITY_SCALE
    }

    pub fn new(screen_size: TwoInts, sections: (i32, i32)) -> (r: State)
        requires
            0 < sections.0 <= screen_size.x,
            0 < sections.1 <= screen_size.y,
            sections.0 * sections.1 <= i32::MAX,
        ensures
            r.wf(),
            r.current_image == 0,
            r.sensitivity == 0,
            r.audio_status == AudioStatus::Closed,
            r.audio_devices@.len() == 0,
            r.section_size.0 == screen_size.x as int / sections.0 as int,
            r.section_size.1 == screen_size.y as int / sections.1 as int,
            r.x_sections == sections.0,
            r.y_sections == sections.1,
    {
        proof {
            vstd::arithmetic::mul::lemma_mul_strictly_positive(
                sections.0 as int,
                sections.1 as int,
            );
            assert(screen_size.x as int / sections.0 as int >= 1 && screen_size.y as int
                / sections.1 as int >= 1) by (nonlinear_arith)
                requires
                    0 < sections.0 <= screen_size.x,
                    0 < sections.1 <= screen_size.y,
            ;
        }
        State {
            current_image: 0,
            sensitivity: 0,
            audio_status: AudioStatus::Closed,
            audio_devices: Vec::new(),
            section_size: (screen_size.x / sections.0, screen_size.y / sections.1),
            x_sections: sections.0,
            y_sections: sections.1,
        }
    }

    pub fn current_image(&self) -> (r: usize)
        ensures
            r == self.current_image,
    {
        self.current_image
    }

    /// Moves the current sprite to `current_image`, returning whether
    /// anything changed.  Nothing changes — and no change should be announced
    /// — when the new index equals the old one or lies off the grid.
    pub fn set_current_image(&mut self, current_image: usize) -> (r: bool)
        requires
            old(self).wf(),
        ensures
            final(self).wf(),
            r == (current_image != old(self).current_image && current_image < old(self).x_sections
                * old(self).y_sections),
            final(self).current_image == if r {
                current_image as int
            } else {
                old(self).current_image as int
            },
            final(self).sensitivity == old(self).sensitivity,
            final(self).audio_status == old(self).audio_status,
            final(self).audio_devices == old(self).audio_devices,
            final(self).section_size == old(self).section_size,
            final(self).x_sections == old(self).x_sections,
            final(self).y_sections == old(self).y_sections,
    {
        proof {
            vstd::arithmetic::mul::lemma_mul_strictly_positive(
                self.x_sections as int,
                self.y_sections as int,
            );
        }
        let total = (self.x_sections * self.y_sections) as usize;
        if self.current_image == current_image {
            false
        } else if current_image < total {
            self.current_image = current_image;
            true
        } else {
            false
        }
    }

    /// Moves the current sprite to the grid cell under the cursor position
    /// `(x, y)`, returning whether anything changed.  A cursor outside the
    /// grid (negative, or past the last cell) changes nothing.
    pub fn set_current_image_xy(&mut self, x: i32, y: i32) -> (r: bool)
        requires
            old(self).wf(),
        ensures
            final(self).wf(),
            ({
                let cx = x as int / old(self).section_size.0 as int;
                let cy = y as int / old(self).section_size.1 as int;
                let inside = 0 <= x && 0 <= y && cx < old(self).x_sections && cy < old(self)
                    .y_sections;
                &&& r == (inside && cy * old(self).x_sections + cx != old(self).current_image)
                &&& final(self).current_image == if r {
                    cy * old(self).x_sections + cx
                } else {
                    old(self).current_image as int
                }
            }),
            final(self).sensitivity == old(self).sensitivity,
            final(self).audio_status == old(self).audio_status,
            final(self).audio_devices == old(self).audio_devices,
            final(self).section_size == old(self).section_size,
            final(self).x_sections == old(self).x_sections,
            final(self).y_sections == old(self).y_sections,
    {
        if x < 0 || y < 0 {
            return false;
        }
        let cx = x / self.section_size.0;
        let cy = y / self.section_size.1;
        if cx >= self.x_sections || cy >= self.y_sections {
            return false;
        }
        proof {
            let ghost gcx = cx as int;
            let ghost gcy = cy as int;
            let ghost gxs = self.x_sections as int;
            let ghost gys = self.y_sections as int;
            assert(0 <= gcy * gxs + gcx && gcy * gxs + gcx < gxs * gys) by (nonlinear_arith)
                requires
                    0 <= gcx < gxs,
                    0 <= gcy < gys,
            ;
        }
        let new_image = to_2d_index(cx, cy, self.x_sections);
        self.set_current_image(new_image)
    }

    pub fn sensitivity(&self) -> (r: u32)
        ensures
            r == self.sensitivity,
    {
        self.sensitivity
    }

    pub fn set_sensitivity(&mut self, sensitivity: u32)
        requires
            sensitivity <= SENSITIVITY_SCALE,
        ensures
            *final(self) == (State { sensitivity, ..*old(self) }),
    {
        self.sensitivity = sensitivity;
    }

    /// Whether the speaking sprite set is shown: any sensitivity above zero
    /// counts as speaking.
    pub fn is_speaking(&self) -> (r: bool)
        ensures
            r == (self.sensitivity > 0),
    {
        self.sensitivity > 0
    }

    pub fn audio_status(&self) -> (r: &AudioStatus)
        ensures
            r == &self.audio_status,
    {
        &self.audio_status
    }

    pub fn set_audio_status(&mut self, audio_status: AudioStatus)
        ensures
            *final(self) == (State { audio_status, ..*old(self) }),
    {
        self.audio_status = audio_status;
    }

    pub fn set_audio_devices(&mut self, audio_devices: Vec<String>)
        ensures
            *final(self) == (State { audio_devices, ..*old(self) }),
    {
        self.audio_devices = audio_devices;
    }

    pub fn section_size(&self) -> (r: (i32, i32))
        ensures
            r == self.section_size,
    {
        self.section_size
    }

    pub fn x_sections(&self) -> (r: i32)
        ensures
            r == self.x_sections,
    {
        self.x_sections
    }

    /// Dispatches one drained message: updates the state as the message asks
    /// and says what outside work the host owes.  Status messages move the
    /// session status — except `Polling`, which leaves the status alone and
    /// schedules a retry with the handler it carries.
    pub fn apply_message(&mut self, message: Message) -> (r: DispatchAction)
        requires
            old(self).wf(),
            message matches Message::SensitivityChanged(s) ==> s <= SENSITIVITY_SCALE,
        ensures
            final(self).wf(),
            match message {
                Message::SetupAudio(handler) => {
                    &&& *final(self) == *old(self)
                    &&& r == DispatchAction::StartSession(handler)
                },
                Message::UpdateAudioStatus(status, handler) => {
                    if status == AudioStatus::Polling {
                        &&& *final(self) == *old(self)
                        &&& match handler {
                            Option::Some(h) => r == DispatchAction::ScheduleRetry(h),
                            Option::None => r == DispatchAction::Nothing,
                        }
                    } else {
                        &&& *final(self) == (State { audio_status: status, ..*old(self) })
                        &&& r == DispatchAction::Nothing
                    }
                },
                Message::SensitivityChanged(sensitivity) => {
                    &&& *final(self) == (State { sensitivity, ..*old(self) })
                    &&& r == DispatchAction::Nothing
                },
                Message::AudioDevicesChanged(devices) => {
                    &&& *final(self) == (State { audio_devices: devices, ..*old(self) })
                    &&& r == DispatchAction::Nothing
                },
                _ => {
                    &&& *final(self) == *old(self)
                    &&& r == DispatchAction::Nothing
                },
            },
    {
        match message {
            Message::SetupAudio(handler) => DispatchAction::StartSession(handler),
            Message::UpdateAudioStatus(status, handler) => {
                if matches!(status, AudioStatus::Polling) {
                    match handler {
                        Some(h) => DispatchAction::ScheduleRetry(h),
                        None => DispatchAction::Nothing,
                    }
                } else {
                    self.audio_status = status;
                    DispatchAction::Nothing
                }
            },
            Message::SensitivityChanged(sensitivity) => {
                self.sensitivity = sensitivity;
                DispatchAction::Nothing
            },
            Message::AudioDevicesChanged(devices) => {
                self.audio_devices = devices;
                DispatchAction::Nothing
            },
            _ => DispatchAction::Nothing,
        }
    }
}

} // verus!
