use rotatar::audio::sensitivity::SensitivityState;
use rotatar::config::{
    AudioConfig, Config, ScreenInformation, DEFAULT_MAGNITUDE_THRESHOLD, DEFAULT_MAX_MAGNITUDE,
};
use rotatar::numbers::TwoInts;

fn sample_config() -> Config {
    Config::new(
        AudioConfig::default(),
        (3, 3),
        (0..9).map(|i| format!("idle-{i}.png")).collect(),
        (0..9).map(|i| format!("talk-{i}.png")).collect(),
        ScreenInformation::new(
            TwoInts::new(1920, 1080),
            vec![(String::from("linux"), TwoInts::new(0, -30))],
        ),
    )
}

#[test]
fn audio_defaults() {
    let config = AudioConfig::default();
    assert_eq!(config.magnitude_threshold(), 6);
    assert_eq!(config.max_magnitude(), 50);
    assert_eq!(DEFAULT_MAGNITUDE_THRESHOLD, 6);
    assert_eq!(DEFAULT_MAX_MAGNITUDE, 50);
}

#[test]
fn default_and_explicit_config_agree() {
    // The defaults reproduce the same decision boundary as a configuration
    // that spells the same values out.
    let implicit = AudioConfig::default();
    let explicit = AudioConfig::new(6, 50);
    for magnitude in [0, 5, 6, 7, 49, 50, 60] {
        for delta in [0u64, 50, 500] {
            let mut a = SensitivityState::new(0);
            let mut b = SensitivityState::new(0);
            let msgs_a = a.process(magnitude, delta, &implicit);
            let msgs_b = b.process(magnitude, delta, &explicit);
            assert_eq!(a, b);
            assert_eq!(msgs_a.len(), msgs_b.len());
        }
    }
}

#[test]
fn grid_accounting() {
    let config = sample_config();
    assert_eq!(config.sections(), (3, 3));
    assert_eq!(config.total_sections(), 9);
    assert_eq!(config.image_count(), 9);
    assert!(config.is_valid());
    assert_eq!(config.screen_size(), (1920, 1080));
}

#[test]
fn too_few_images_is_invalid() {
    let config = Config::new(
        AudioConfig::default(),
        (3, 3),
        vec![String::from("only.png")],
        Vec::new(),
        ScreenInformation::new(TwoInts::new(640, 480), Vec::new()),
    );
    assert!(!config.is_valid());
}

#[test]
fn image_for_cell_depends_on_speaking() {
    let config = sample_config();
    assert_eq!(config.current_image(false, 4).as_str(), "idle-4.png");
    assert_eq!(config.current_image(true, 4).as_str(), "talk-4.png");
    assert_eq!(config.idle_images().len(), 9);
    assert_eq!(config.speaking_images().len(), 9);
    assert_eq!(config.audio().max_magnitude(), 50);
}

#[test]
fn platform_modifier_lookup() {
    let config = sample_config();
    let info = config.screen_information();
    assert_eq!(info.size(), TwoInts::new(1920, 1080));
    assert_eq!(info.modifier("linux"), TwoInts::new(0, -30));
    // Platforms without an entry fall back to the zero offset.
    assert_eq!(info.modifier("macos"), TwoInts::new(0, 0));
}

#[test]
fn modifier_takes_first_match() {
    let info = ScreenInformation::new(
        TwoInts::new(800, 600),
        vec![
            (String::from("os"), TwoInts::new(1, 1)),
            (String::from("os"), TwoInts::new(2, 2)),
        ],
    );
    assert_eq!(info.modifier("os"), TwoInts::new(1, 1));
}

#[test]
fn two_ints_arithmetic() {
    let a = TwoInts::new(3, 4);
    assert_eq!(a.x(), 3);
    assert_eq!(a.y(), 4);
    assert_eq!(a.plus(TwoInts::new(-1, 10)), TwoInts::new(2, 14));
    assert_eq!(TwoInts::from((7, 8)), TwoInts::new(7, 8));
    assert_eq!(TwoInts::default(), TwoInts::new(0, 0));
}
