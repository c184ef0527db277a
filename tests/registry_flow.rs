use quick_capture::registry::{KeyState, RegistrationError, ShortcutRegistry};
use quick_capture::shortcut::{parse_shortcut, ParseError};

fn bind(reg: &mut ShortcutRegistry, text: &str) -> Result<(), RegistrationError> {
    let sc = reg.begin_register(text)?;
    reg.finish_register(sc, Ok(()))
}

#[test]
fn new_registry_has_nothing_bound() {
    assert_eq!(ShortcutRegistry::new().active(), None);
}

#[test]
fn rebinding_leaves_exactly_one() {
    let mut reg = ShortcutRegistry::new();
    assert_eq!(bind(&mut reg, "Command+Option+N"), Ok(()));
    assert_eq!(reg.active(), Some(parse_shortcut("Command+Option+N").unwrap()));
    assert_eq!(bind(&mut reg, "Command+Option+N"), Ok(()));
    assert_eq!(reg.active(), Some(parse_shortcut("Command+Option+N").unwrap()));
}

#[test]
fn second_save_replaces_first() {
    let mut reg = ShortcutRegistry::new();
    assert_eq!(bind(&mut reg, "Command+Option+N"), Ok(()));
    assert_eq!(bind(&mut reg, "Control+Shift+M"), Ok(()));
    let first = parse_shortcut("Command+Option+N").unwrap();
    let second = parse_shortcut("Control+Shift+M").unwrap();
    assert_eq!(reg.active(), Some(second));
    assert!(reg.fires_on(second, KeyState::Pressed));
    assert!(!reg.fires_on(first, KeyState::Pressed));
}

#[test]
fn release_does_not_fire() {
    let mut reg = ShortcutRegistry::new();
    assert_eq!(bind(&mut reg, "Ctrl+K"), Ok(()));
    let sc = parse_shortcut("Ctrl+K").unwrap();
    assert!(reg.fires_on(sc, KeyState::Pressed));
    assert!(!reg.fires_on(sc, KeyState::Released));
}

#[test]
fn invalid_text_leaves_nothing_bound() {
    let mut reg = ShortcutRegistry::new();
    assert_eq!(bind(&mut reg, "Ctrl+K"), Ok(()));
    assert_eq!(
        reg.begin_register("Control+Shift"),
        Err(RegistrationError::InvalidSpec(ParseError::NoKeySpecified))
    );
    assert_eq!(reg.active(), None);
}

#[test]
fn refused_binding_leaves_nothing_bound() {
    let mut reg = ShortcutRegistry::new();
    assert_eq!(bind(&mut reg, "Ctrl+K"), Ok(()));
    let sc = reg.begin_register("Ctrl+J").unwrap();
    let r = reg.finish_register(sc, Err("already taken".to_string()));
    assert_eq!(r, Err(RegistrationError::OsRejected("already taken".to_string())));
    assert_eq!(reg.active(), None);
    assert!(!reg.fires_on(sc, KeyState::Pressed));
}
