use rotatar::audio::error::AudioResult;
use rotatar::audio::handler::{AudioHandler, StreamSettings};
use rotatar::audio::session::{
    begin_play, conclude_play, handle_audio, AudioMessage, SessionOutcome, RETRY_BACKOFF_MS,
};
use rotatar::audio::status::AudioStatus;
use rotatar::config::AudioConfig;
use rotatar::message::Message;
use rotatar::numbers::TwoInts;
use rotatar::state::{DispatchAction, State};

fn handler_with(names: &[&str]) -> AudioHandler {
    let mut handler = AudioHandler::new(AudioConfig::new(6, 50));
    let names: Vec<String> = names.iter().map(|n| String::from(*n)).collect();
    handler.update_input_devices(Some(names));
    handler
}

fn settings() -> StreamSettings {
    StreamSettings { channels: 1, sample_rate: 44100 }
}

#[test]
fn ready_announced_only_with_config() {
    let mut handler = handler_with(&["mic"]);
    assert!(begin_play(&handler).is_none());
    handler.set_current_input_device(0, Some(settings()));
    let msg = begin_play(&handler);
    assert!(matches!(
        msg,
        Some(Message::UpdateAudioStatus(AudioStatus::Ready, None))
    ));
}

#[test]
fn play_without_config_is_no_config() {
    let handler = handler_with(&["mic"]);
    let result = conclude_play(handler, true, true, None);
    assert_eq!(result.result(), AudioResult::NoConfig);
}

#[test]
fn play_outcomes_in_priority_order() {
    let mut handler = handler_with(&["mic"]);
    handler.set_current_input_device(0, Some(settings()));

    let r = conclude_play(handler.clone(), false, false, None);
    assert_eq!(r.result(), AudioResult::BuildStreamError);

    let r = conclude_play(handler.clone(), true, false, None);
    assert_eq!(r.result(), AudioResult::Play);

    let r = conclude_play(handler.clone(), true, true, Some(AudioResult::DeviceNotAvailable));
    assert_eq!(r.result(), AudioResult::DeviceNotAvailable);

    let r = conclude_play(handler.clone(), true, true, Some(AudioResult::StreamError));
    assert_eq!(r.result(), AudioResult::StreamError);

    let r = conclude_play(handler, true, true, None);
    assert_eq!(r.result(), AudioResult::Closed);
}

#[test]
fn conclude_play_returns_the_handler() {
    let mut handler = handler_with(&["mic", "other"]);
    handler.set_current_input_device(1, Some(settings()));
    let result = conclude_play(handler, true, true, None);
    let handler = result.audio_handler();
    assert_eq!(handler.current_input_index, 1);
    assert_eq!(handler.input_devices().len(), 2);
}

#[test]
fn stream_error_classification() {
    assert_eq!(
        AudioResult::from_stream_error(true),
        AudioResult::DeviceNotAvailable
    );
    assert_eq!(AudioResult::from_stream_error(false), AudioResult::StreamError);
}

#[test]
fn clean_close_requeues_setup() {
    let handler = handler_with(&["mic"]);
    match handle_audio(handler, true, Some(AudioResult::Closed)) {
        SessionOutcome::Continue(status, setup) => {
            assert!(matches!(
                status,
                Message::UpdateAudioStatus(AudioStatus::Closed, Some(_))
            ));
            assert!(matches!(setup, Message::SetupAudio(_)));
        }
        _ => panic!("a natural close must continue the session"),
    }
}

#[test]
fn vanished_device_requeues_setup() {
    let handler = handler_with(&["mic"]);
    assert!(matches!(
        handle_audio(handler, true, Some(AudioResult::DeviceNotAvailable)),
        SessionOutcome::Continue(_, _)
    ));
}

#[test]
fn unrecoverable_errors_are_surfaced() {
    for error in [
        AudioResult::Play,
        AudioResult::NoConfig,
        AudioResult::BuildStreamError,
        AudioResult::StreamError,
    ] {
        let handler = handler_with(&["mic"]);
        match handle_audio(handler, true, Some(error)) {
            SessionOutcome::Fatal(e) => assert_eq!(e, error),
            _ => panic!("an unrecoverable error must be surfaced"),
        }
    }
}

#[test]
fn failed_selection_polls() {
    let handler = handler_with(&[]);
    match handle_audio(handler, false, None) {
        SessionOutcome::Poll(msg) => {
            assert!(matches!(
                msg,
                Message::UpdateAudioStatus(AudioStatus::Polling, Some(_))
            ));
        }
        _ => panic!("a failed selection must poll"),
    }
}

#[test]
fn retry_backoff_is_fixed() {
    assert_eq!(RETRY_BACKOFF_MS, 75);
}

#[test]
fn stop_command_exists() {
    assert_eq!(AudioMessage::Stop, AudioMessage::Stop);
}

#[test]
fn polling_status_schedules_retry_without_touching_state() {
    let mut state = State::new(TwoInts::new(1920, 1080), (3, 3));
    let handler = handler_with(&["mic"]);
    let action = state.apply_message(Message::UpdateAudioStatus(
        AudioStatus::Polling,
        Some(handler),
    ));
    assert!(matches!(action, DispatchAction::ScheduleRetry(_)));
    assert_eq!(*state.audio_status(), AudioStatus::Closed);
}

#[test]
fn dispatch_updates_state() {
    let mut state = State::new(TwoInts::new(1920, 1080), (3, 3));
    let action = state.apply_message(Message::UpdateAudioStatus(AudioStatus::Ready, None));
    assert!(matches!(action, DispatchAction::Nothing));
    assert_eq!(*state.audio_status(), AudioStatus::Ready);

    let action = state.apply_message(Message::SensitivityChanged(400));
    assert!(matches!(action, DispatchAction::Nothing));
    assert_eq!(state.sensitivity(), 400);
    assert!(state.is_speaking());

    let action = state.apply_message(Message::SetupAudio(handler_with(&["mic"])));
    assert!(matches!(action, DispatchAction::StartSession(_)));

    let action = state.apply_message(Message::AudioDevicesChanged(vec![String::from("mic")]));
    assert!(matches!(action, DispatchAction::Nothing));

    let action = state.apply_message(Message::CurrentImageChanged);
    assert!(matches!(action, DispatchAction::Nothing));
}

#[test]
fn hotplug_scenario_polls_then_becomes_ready() {
    // No devices: automatic selection fails, the session polls, the status
    // stays Polling.  After a device named "Default Mic" appears, selection
    // succeeds, the stream opens and the status becomes Ready.
    let mut state = State::new(TwoInts::new(1920, 1080), (3, 3));
    let mut handler = AudioHandler::new(AudioConfig::default());

    handler.update_input_devices(Some(Vec::new()));
    assert_eq!(handler.find_default_device(), None);
    let outcome = handle_audio(handler, false, None);
    let poll_msg = match outcome {
        SessionOutcome::Poll(msg) => msg,
        _ => panic!("no device: the session must poll"),
    };
    let action = state.apply_message(poll_msg);
    let mut handler = match action {
        DispatchAction::ScheduleRetry(handler) => handler,
        _ => panic!("a polling status must schedule a retry"),
    };
    assert_eq!(*state.audio_status(), AudioStatus::Closed);

    // The backoff elapses; a device has appeared by the next enumeration.
    handler.update_input_devices(Some(vec![String::from("Default Mic")]));
    let index = handler.find_default_device().expect("the new device matches");
    assert!(handler.set_current_input_device(index, Some(settings())));
    let ready = begin_play(&handler).expect("a bound config announces Ready");
    state.apply_message(ready);
    assert_eq!(*state.audio_status(), AudioStatus::Ready);
}
