use quick_capture::shortcut::{parse_key_code, parse_shortcut, KeyCode, Modifiers, ParseError, ShortcutSpec};

fn mods(super_key: bool, control: bool, alt: bool, shift: bool) -> Modifiers {
    Modifiers { super_key, control, alt, shift }
}

#[test]
fn control_shift_k_parses() {
    let r = parse_shortcut("Control+Shift+K");
    assert_eq!(
        r,
        Ok(ShortcutSpec { modifiers: mods(false, true, false, true), key: KeyCode::KeyK })
    );
}

#[test]
fn lower_case_parses_identically() {
    assert_eq!(parse_shortcut("control+shift+k"), parse_shortcut("Control+Shift+K"));
    assert_eq!(parse_shortcut("CONTROL+SHIFT+k"), parse_shortcut("Control+Shift+K"));
}

#[test]
fn default_shortcut_parses() {
    assert_eq!(
        parse_shortcut("Command+Option+N"),
        Ok(ShortcutSpec { modifiers: mods(true, false, true, false), key: KeyCode::KeyN })
    );
}

#[test]
fn modifier_aliases() {
    let expected = Ok(ShortcutSpec { modifiers: mods(true, true, true, true), key: KeyCode::Digit5 });
    assert_eq!(parse_shortcut("cmd+ctrl+alt+shift+5"), expected);
    assert_eq!(parse_shortcut("Super+Control+Option+Shift+5"), expected);
    assert_eq!(parse_shortcut("Meta+Ctrl+Alt+Shift+5"), expected);
}

#[test]
fn whitespace_around_tokens_is_ignored() {
    assert_eq!(
        parse_shortcut(" Ctrl + a "),
        Ok(ShortcutSpec { modifiers: mods(false, true, false, false), key: KeyCode::KeyA })
    );
}

#[test]
fn key_alone_has_no_modifiers() {
    assert_eq!(
        parse_shortcut("space"),
        Ok(ShortcutSpec { modifiers: mods(false, false, false, false), key: KeyCode::Space })
    );
}

#[test]
fn last_key_token_wins() {
    assert_eq!(
        parse_shortcut("Ctrl+A+B"),
        Ok(ShortcutSpec { modifiers: mods(false, true, false, false), key: KeyCode::KeyB })
    );
}

#[test]
fn modifiers_only_is_no_key() {
    assert_eq!(parse_shortcut("Control+Shift"), Err(ParseError::NoKeySpecified));
}

#[test]
fn unknown_key_names_the_token() {
    assert_eq!(
        parse_shortcut("Control+Foo"),
        Err(ParseError::UnknownKey("Foo".to_string()))
    );
}

#[test]
fn first_unknown_key_stops_reading() {
    assert_eq!(
        parse_shortcut("F1+Shift+Bar"),
        Err(ParseError::UnknownKey("F1".to_string()))
    );
}

#[test]
fn empty_text_is_unknown_empty_key() {
    assert_eq!(parse_shortcut(""), Err(ParseError::UnknownKey(String::new())));
    assert_eq!(parse_shortcut("Ctrl+"), Err(ParseError::UnknownKey(String::new())));
}

#[test]
fn named_keys() {
    assert_eq!(parse_key_code("space"), Ok(KeyCode::Space));
    assert_eq!(parse_key_code("Enter"), Ok(KeyCode::Enter));
    assert_eq!(parse_key_code("escape"), Ok(KeyCode::Escape));
    assert_eq!(parse_key_code("esc"), Ok(KeyCode::Escape));
}

#[test]
fn letters_and_digits() {
    assert_eq!(parse_key_code("a"), Ok(KeyCode::KeyA));
    assert_eq!(parse_key_code("Z"), Ok(KeyCode::KeyZ));
    assert_eq!(parse_key_code("0"), Ok(KeyCode::Digit0));
    assert_eq!(parse_key_code("9"), Ok(KeyCode::Digit9));
}

#[test]
fn unknown_key_code() {
    assert_eq!(parse_key_code("tab"), Err(ParseError::UnknownKey("tab".to_string())));
    assert_eq!(parse_key_code("!"), Err(ParseError::UnknownKey("!".to_string())));
}
