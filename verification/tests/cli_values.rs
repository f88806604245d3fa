use rotatar::cli::{Args, ArgsError, ValidArgs};
use rotatar::color::{Color, ColorParseError};
use rotatar::frontend::Frontend;

#[test]
fn color_parses_three_components() {
    assert_eq!(Color::from_str("255 0 10"), Ok(Color { r: 255, g: 0, b: 10 }));
    assert_eq!(Color::from_str("0 0 0"), Ok(Color { r: 0, g: 0, b: 0 }));
    let c = Color::from_str("12 34 56").unwrap();
    assert_eq!((c.r(), c.g(), c.b()), (12, 34, 56));
}

#[test]
fn color_tolerates_extra_whitespace() {
    assert_eq!(
        Color::from_str("  1\t2   3 "),
        Ok(Color { r: 1, g: 2, b: 3 })
    );
}

#[test]
fn color_accepts_signs_and_zeros_like_a_byte() {
    assert_eq!(Color::from_str("+17 0 007"), Ok(Color { r: 17, g: 0, b: 7 }));
}

#[test]
fn color_wrong_shape_is_invalid_format() {
    assert_eq!(Color::from_str("1 2"), Err(ColorParseError::InvalidFormat));
    assert_eq!(Color::from_str("1 2 3 4"), Err(ColorParseError::InvalidFormat));
    assert_eq!(Color::from_str(""), Err(ColorParseError::InvalidFormat));
    assert_eq!(Color::from_str("   "), Err(ColorParseError::InvalidFormat));
}

#[test]
fn color_bad_component_is_invalid_number() {
    assert_eq!(Color::from_str("1 2 x"), Err(ColorParseError::InvalidNumber));
    assert_eq!(Color::from_str("1 2 300"), Err(ColorParseError::InvalidNumber));
    assert_eq!(Color::from_str("-1 2 3"), Err(ColorParseError::InvalidNumber));
    assert_eq!(Color::from_str("1 2 +"), Err(ColorParseError::InvalidNumber));
    assert_eq!(
        Color::from_str("999999999999 0 0"),
        Err(ColorParseError::InvalidNumber)
    );
}

#[test]
fn color_from_tuple() {
    assert_eq!(Color::from((1, 2, 3)), Color { r: 1, g: 2, b: 3 });
}

#[test]
fn frontend_names() {
    assert_eq!(Frontend::from_str("iced"), Ok(Frontend::Iced));
    assert_eq!(Frontend::from_str("native"), Ok(Frontend::Iced));
    assert_eq!(Frontend::from_str("tauri"), Ok(Frontend::Tauri));
    assert_eq!(Frontend::from_str("web"), Ok(Frontend::Tauri));
    match Frontend::from_str("gtk") {
        Err(ArgsError::InvalidFrontend(name)) => assert_eq!(name, "gtk"),
        _ => panic!("an unknown frontend must be rejected with its name"),
    }
    assert_eq!(Frontend::default(), Frontend::Tauri);
}

#[test]
fn args_validation_requires_config_path() {
    let args = Args::new(None, None, None);
    assert!(matches!(ValidArgs::from_args(args), Err(ArgsError::Invalid)));
}

#[test]
fn args_validation_defaults_the_frontend() {
    let args = Args::new(Some(String::from("rotatar.json")), None, None);
    let valid = ValidArgs::from_args(args).unwrap();
    assert_eq!(valid.config_path().as_str(), "rotatar.json");
    assert_eq!(valid.frontend(), Frontend::Tauri);
    assert_eq!(valid.background_color(), None);
}

#[test]
fn args_validation_keeps_explicit_choices() {
    let args = Args::new(
        Some(String::from("cfg.json")),
        Some(Frontend::Iced),
        Some(Color { r: 1, g: 2, b: 3 }),
    );
    assert_eq!(args.config_path(), &Some(String::from("cfg.json")));
    assert_eq!(args.background_color(), Some(Color { r: 1, g: 2, b: 3 }));
    let valid = ValidArgs::from_args(args).unwrap();
    assert_eq!(valid.frontend(), Frontend::Iced);
    assert_eq!(valid.background_color(), Some(Color { r: 1, g: 2, b: 3 }));
}
