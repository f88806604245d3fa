//! The session state machine: how one open-to-close lifetime of an audio
//! stream begins, ends and is retried.
//!
//! The host performs the outside work — opening the stream, sleeping the
//! retry backoff, sending on the bus — and feeds every outcome back in as a
//! plain value.  The decisions taken on those outcomes are all here.

use vstd::prelude::*;
use crate::audio::error::AudioResult;
use crate::audio::handler::AudioHandler;
use crate::audio::handler::handler_equiv;
use crate::audio::status::AudioStatus;
use crate::message::Message;

verus! {

/// The backoff slept before a polling retry re-enumerates devices, in
/// milliseconds.  The retry path always sleeps before re-checking, so the
/// machine never busy-loops while no device is present.
pub const RETRY_BACKOFF_MS: u64 = 75;

/// Command accepted by a running session from the device-control surface.
#[derive(Clone, Copy, Debug, PartialEq, Eq, Structural)]
pub enum AudioMessage {
    /// Release the current stream before a new one opens.
    Stop,
}

/// What a finished play attempt left behind: the handler, released and ready
/// for re-use, and how the attempt ended.
#[derive(Debug)]
pub struct AudioHandlerResult {
    pub audio_handler: AudioHandler,
    pub result: AudioResult,
}

impl AudioHandlerResult {
    pub fn result(&self) -> (r: AudioResult)
        ensures
            r == self.result,
    {
        self.result
    }

    pub fn audio_handler(self) -> (r: AudioHandler)
        ensures
            r == self.audio_handler,
    {
        self.audio_handler
    }
}

/// The message a session emits as it starts playing: `Ready`, but only once a
/// configuration is actually bound — with no configuration there is nothing
/// to open and the attempt fails as `NoConfig` instead.
pub fn begin_play(handler: &AudioHandler) -> (r: Option<Message>)
    ensures
        handler.config is Some ==> r == Some(
            Message::UpdateAudioStatus(AudioStatus::Ready, None::<AudioHandler>),
        ),
        handler.config is None ==> r is None,
{
    if handler.config.is_some() {
        Some(Message::UpdateAudioStatus(AudioStatus::Ready, None))
    } else {
        None
    }
}

/// How a play attempt ended, decided from what the host observed: whether a
/// configuration was bound, whether the backend accepted the stream, whether
/// it started playing, and the error the stream's error callback recorded
/// (`None` when the owning channel simply closed).
pub fn conclude_play(
    audio_handler: AudioHandler,
    build_ok: bool,
    play_ok: bool,
    observed: Option<AudioResult>,
) -> (r: AudioHandlerResult)
    ensures
        r.audio_handler == audio_handler,
        r.result == spec_play_result(audio_handler.config is Some, build_ok, play_ok, observed),
{
    let result = if audio_handler.config.is_none() {
        AudioResult::NoConfig
    } else if !build_ok {
        AudioResult::BuildStreamError
    } else if !play_ok {
        AudioResult::Play
    } else {
        match observed {
            Some(error) => error,
            None => AudioResult::Closed,
        }
    };
    AudioHandlerResult { audio_handler, result }
}

/// The decision tree of `conclude_play`.
pub open spec fn spec_play_result(
    had_config: bool,
    build_ok: bool,
    play_ok: bool,
    observed: Option<AudioResult>,
) -> AudioResult {
    if !had_config {
        AudioResult::NoConfig
    } else if !build_ok {
        AudioResult::BuildStreamError
    } else if !play_ok {
        AudioResult::Play
    } else {
        match observed {
            Option::Some(error) => error,
            Option::None => AudioResult::Closed,
        }
    }
}

/// Whether this end of a play attempt is a clean session end: a natural
/// close, or a device that vanished.  Both re-queue a setup; everything else
/// is unrecoverable for the current attempt.
pub open spec fn spec_recoverable(result: AudioResult) -> bool {
    result == AudioResult::Closed || result == AudioResult::DeviceNotAvailable
}

/// What the loop around a session must do next.
#[derive(Debug)]
pub enum SessionOutcome {
    /// Clean end: put the first message (the `Closed` status, carrying the
    /// released handler) on the bus, then dispatch the second (a new setup).
    Continue(Message, Message),
    /// Selection failed: put the `Polling` status, carrying the handler, on
    /// the bus so a retry can be scheduled after the backoff.
    Poll(Message),
    /// Unrecoverable for this attempt: surfaced to the caller, which decides
    /// whether to end the session.
    Fatal(AudioResult),
}

/// One round of the session loop, decided after device selection and — when
/// selection succeeded — one play attempt.
pub fn handle_audio(handler: AudioHandler, selected: bool, play_result: Option<AudioResult>) -> (r:
    SessionOutcome)
    requires
        selected ==> play_result is Some,
    ensures
        !selected ==> r == SessionOutcome::Poll(
            Message::UpdateAudioStatus(AudioStatus::Polling, Some(handler)),
        ),
        selected && spec_recoverable(play_result->0) ==> {
            &&& r matches SessionOutcome::Continue(status, setup)
            &&& status matches Message::UpdateAudioStatus(s, h)
            &&& s == AudioStatus::Closed
            &&& h matches Some(released) && handler_equiv(&released, &handler)
            &&& setup == Message::SetupAudio(handler)
        },
        selected && !spec_recoverable(play_result->0) ==> r == SessionOutcome::Fatal(
            play_result->0,
        ),
{
    if !selected {
        return SessionOutcome::Poll(
            Message::UpdateAudioStatus(AudioStatus::Polling, Some(handler)),
        );
    }
    let result = match play_result {
        Some(result) => result,
        None => AudioResult::Closed,
    };
    if matches!(result, AudioResult::Closed) || matches!(result, AudioResult::DeviceNotAvailable) {
        let released = handler.clone();
        SessionOutcome::Continue(
            Message::UpdateAudioStatus(AudioStatus::Closed, Some(released)),
            Message::SetupAudio(handler),
        )
    } else {
        SessionOutcome::Fatal(result)
    }
}

} // verus!
