use rotatar::audio::error::AudioResult;
use rotatar::audio::handler::{AudioHandler, StreamSettings};
use rotatar::config::AudioConfig;
use rotatar::message::Message;

fn handler_with(names: &[&str]) -> AudioHandler {
    let mut handler = AudioHandler::new(AudioConfig::new(6, 50));
    let names: Vec<String> = names.iter().map(|n| String::from(*n)).collect();
    handler.update_input_devices(Some(names));
    handler
}

fn settings() -> StreamSettings {
    StreamSettings { channels: 1, sample_rate: 44100 }
}

#[test]
fn enumeration_replaces_list_and_reports_it() {
    let mut handler = AudioHandler::new(AudioConfig::new(6, 50));
    let msg = handler.update_input_devices(Some(vec![String::from("a"), String::from("b")]));
    assert_eq!(handler.input_devices().len(), 2);
    match msg {
        Message::AudioDevicesChanged(names) => assert_eq!(names, vec!["a", "b"]),
        _ => panic!("expected a device-list message"),
    }
}

#[test]
fn failed_enumeration_retains_stale_list() {
    // An enumeration failure never clears the list; the stale list is still
    // reported.
    let mut handler = handler_with(&["usb mic"]);
    let msg = handler.update_input_devices(None);
    assert_eq!(handler.input_devices().len(), 1);
    match msg {
        Message::AudioDevicesChanged(names) => assert_eq!(names, vec!["usb mic"]),
        _ => panic!("expected a device-list message"),
    }
}

#[test]
fn default_device_found_case_insensitively() {
    let handler = handler_with(&["USB Microphone", "Sysdefault Output", "other"]);
    assert_eq!(handler.find_default_device(), Some(1));
    let handler = handler_with(&["DEFAULT mic", "sysdefault"]);
    assert_eq!(handler.find_default_device(), Some(0));
}

#[test]
fn no_default_device_to_find() {
    let handler = handler_with(&["usb mic", "line in"]);
    assert_eq!(handler.find_default_device(), None);
    let empty = AudioHandler::new(AudioConfig::new(6, 50));
    assert_eq!(empty.find_default_device(), None);
}

#[test]
fn device_found_by_exact_name() {
    let handler = handler_with(&["usb mic", "line in"]);
    assert_eq!(handler.input_device_by_name("line in"), Ok(1));
}

#[test]
fn missing_name_is_no_device() {
    let handler = handler_with(&["usb mic"]);
    assert_eq!(handler.input_device_by_name("USB MIC"), Err(AudioResult::NoDevice));
    assert_eq!(handler.input_device_by_name(""), Err(AudioResult::NoDevice));
}

#[test]
fn selection_binds_probed_settings() {
    let mut handler = handler_with(&["usb mic"]);
    assert!(handler.set_current_input_device(0, Some(settings())));
    assert_eq!(handler.current_input_index, 0);
    assert_eq!(handler.config, Some(settings()));
}

#[test]
fn out_of_range_selection_fails_and_clears() {
    // Selecting an index past the list fails; the bound configuration is
    // cleared by a failed selection.
    let mut handler = handler_with(&["usb mic"]);
    assert!(handler.set_current_input_device(0, Some(settings())));
    assert!(!handler.set_current_input_device(3, Some(settings())));
    assert_eq!(handler.config, None);
}

#[test]
fn out_of_range_selection_with_nothing_bound() {
    // With no configuration previously bound, a failed selection leaves the
    // handler exactly as it was: unbound.
    let mut handler = handler_with(&["usb mic"]);
    assert!(!handler.set_current_input_device(3, None));
    assert_eq!(handler.config, None);
}

#[test]
fn selection_without_supported_config_fails() {
    // The device exists but the probe found no supported configuration.
    let mut handler = handler_with(&["usb mic"]);
    assert!(!handler.set_current_input_device(0, None));
    assert_eq!(handler.config, None);
}

#[test]
fn cloned_handler_keeps_everything() {
    let mut handler = handler_with(&["usb mic", "line in"]);
    handler.set_current_input_device(1, Some(settings()));
    let copy = handler.clone();
    assert_eq!(copy.input_devices(), handler.input_devices());
    assert_eq!(copy.current_input_index, 1);
    assert_eq!(copy.config, Some(settings()));
}
