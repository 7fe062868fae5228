use hotkey_prompt_refiner::hotkey::{
    default_hotkey_description, describe_hotkey, parse_hotkey_string, parse_key_code,
    parse_key_token, parse_modifier_token, parse_modifiers, Chord, HotkeyError, KeyCode, Modifier,
    Modifiers,
};
use hotkey_prompt_refiner::hotkey_manager::{
    classify_registration_failure, HotkeyEvent, HotkeyManager,
};

fn mods(super_key: bool, control: bool, alt: bool, shift: bool) -> Modifiers {
    Modifiers { super_key, control, alt, shift }
}

fn invalid(r: Result<Chord, HotkeyError>) -> String {
    match r {
        Err(HotkeyError::InvalidSpec(d)) => d,
        other => panic!("expected InvalidSpec, got {:?}", other),
    }
}

#[test]
fn test_hotkey_manager_creation() {
    let result = Chord::from_config("cmd+shift", "BracketRight");
    assert!(result.is_ok());
}

#[test]
fn test_hotkey_description() {
    let manager = HotkeyManager::new();
    let desc = manager.hotkey_description("cmd+shift", "BracketRight");
    assert_eq!(desc, "Cmd+Shift+]");

    let desc2 = manager.hotkey_description("ctrl+alt", "KeyP");
    assert_eq!(desc2, "Ctrl+Alt+P");
}

#[test]
fn hotkey_test_hotkey_description() {
    assert_eq!(default_hotkey_description(true), "Cmd+Shift+]");
    assert_eq!(default_hotkey_description(false), "Ctrl+Shift+]");
    assert_eq!(Chord::default_for(true), Chord { modifiers: mods(true, false, false, true), key: KeyCode::BracketRight });
    assert_eq!(Chord::default_for(false), Chord { modifiers: mods(false, true, false, true), key: KeyCode::BracketRight });
}

#[test]
fn test_parse_modifiers() {
    let mods = parse_modifiers("cmd+shift").unwrap();
    assert!(mods.contains(Modifier::Super));
    assert!(mods.contains(Modifier::Shift));

    let mods2 = parse_modifiers("ctrl+alt").unwrap();
    assert!(mods2.contains(Modifier::Control));
    assert!(mods2.contains(Modifier::Alt));
}

#[test]
fn test_parse_key_code() {
    assert!(parse_key_code("BracketRight").is_ok());
    assert!(parse_key_code("KeyP").is_ok());
    assert!(parse_key_code("InvalidKey").is_err());
}

#[test]
fn parse_modifiers_in_detail() {
    assert_eq!(parse_modifiers("cmd+shift").unwrap(), mods(true, false, false, true));
    assert_eq!(parse_modifiers("ctrl+alt").unwrap(), mods(false, true, true, false));
    assert_eq!(parse_modifiers("").unwrap(), mods(false, false, false, false));
    assert_eq!(parse_modifiers("+ shift +").unwrap(), mods(false, false, false, true));
    assert_eq!(parse_modifiers("SUPER+Control+OPTION+Shift").unwrap(), mods(true, true, true, true));
    assert_eq!(parse_modifiers("command").unwrap(), mods(true, false, false, false));
    assert_eq!(parse_modifiers("shift+shift").unwrap(), mods(false, false, false, true));
    match parse_modifiers("shift+Hyper+bogus") {
        Err(HotkeyError::InvalidSpec(d)) => assert_eq!(d, "Unknown modifier: hyper"),
        other => panic!("expected InvalidSpec, got {:?}", other),
    }
}

#[test]
fn parse_key_code_in_detail() {
    assert_eq!(parse_key_code("BracketRight").unwrap(), KeyCode::BracketRight);
    assert_eq!(parse_key_code("BracketLeft").unwrap(), KeyCode::BracketLeft);
    assert_eq!(parse_key_code("KeyP").unwrap(), KeyCode::KeyP);
    assert_eq!(parse_key_code("KeyK").unwrap(), KeyCode::KeyK);
    assert_eq!(parse_key_code("Semicolon").unwrap(), KeyCode::Semicolon);
    assert_eq!(parse_key_code("Space").unwrap(), KeyCode::Space);
    assert_eq!(parse_key_code("Enter").unwrap(), KeyCode::Enter);
    assert_eq!(parse_key_code("Backslash").unwrap(), KeyCode::Backslash);
    match parse_key_code("keyp") {
        Err(HotkeyError::InvalidSpec(d)) => {
            assert_eq!(d, "Unknown key code: keyp. See global-hotkey docs for valid codes.")
        }
        other => panic!("expected InvalidSpec, got {:?}", other),
    }
    match Chord::from_config("cmd+shift", "Nope") {
        Err(HotkeyError::InvalidSpec(d)) => {
            assert_eq!(d, "Unknown key code: Nope. See global-hotkey docs for valid codes.")
        }
        other => panic!("expected InvalidSpec, got {:?}", other),
    }
    match Chord::from_config("cmd+what", "KeyP") {
        Err(HotkeyError::InvalidSpec(d)) => assert_eq!(d, "Unknown modifier: what"),
        other => panic!("expected InvalidSpec, got {:?}", other),
    }
    assert_eq!(
        Chord::from_config("ctrl+alt", "KeyP").unwrap(),
        Chord { modifiers: mods(false, true, true, false), key: KeyCode::KeyP }
    );
}

#[test]
fn tokens_name_modifiers_and_keys() {
    assert_eq!(parse_modifier_token("cmd"), Some(Modifier::Super));
    assert_eq!(parse_modifier_token("super"), Some(Modifier::Super));
    assert_eq!(parse_modifier_token("command"), Some(Modifier::Super));
    assert_eq!(parse_modifier_token("ctrl"), Some(Modifier::Control));
    assert_eq!(parse_modifier_token("control"), Some(Modifier::Control));
    assert_eq!(parse_modifier_token("alt"), Some(Modifier::Alt));
    assert_eq!(parse_modifier_token("option"), Some(Modifier::Alt));
    assert_eq!(parse_modifier_token("shift"), Some(Modifier::Shift));
    assert_eq!(parse_modifier_token("Shift"), None);
    assert_eq!(parse_modifier_token(""), None);
    assert_eq!(parse_key_token("a"), Some(KeyCode::KeyA));
    assert_eq!(parse_key_token("z"), Some(KeyCode::KeyZ));
    assert_eq!(parse_key_token("0"), Some(KeyCode::Digit0));
    assert_eq!(parse_key_token("9"), Some(KeyCode::Digit9));
    assert_eq!(parse_key_token("f1"), Some(KeyCode::F1));
    assert_eq!(parse_key_token("f5"), Some(KeyCode::F5));
    assert_eq!(parse_key_token("f12"), Some(KeyCode::F12));
    assert_eq!(parse_key_token("f13"), None);
    assert_eq!(parse_key_token("]"), Some(KeyCode::BracketRight));
    assert_eq!(parse_key_token("bracketright"), Some(KeyCode::BracketRight));
    assert_eq!(parse_key_token("["), Some(KeyCode::BracketLeft));
    assert_eq!(parse_key_token(";"), Some(KeyCode::Semicolon));
    assert_eq!(parse_key_token("'"), Some(KeyCode::Quote));
    assert_eq!(parse_key_token(","), Some(KeyCode::Comma));
    assert_eq!(parse_key_token("."), Some(KeyCode::Period));
    assert_eq!(parse_key_token("/"), Some(KeyCode::Slash));
    assert_eq!(parse_key_token("\\"), Some(KeyCode::Backslash));
    assert_eq!(parse_key_token("-"), Some(KeyCode::Minus));
    assert_eq!(parse_key_token("="), Some(KeyCode::Equal));
    assert_eq!(parse_key_token("space"), Some(KeyCode::Space));
    assert_eq!(parse_key_token("enter"), Some(KeyCode::Enter));
    assert_eq!(parse_key_token("return"), Some(KeyCode::Enter));
    assert_eq!(parse_key_token("tab"), Some(KeyCode::Tab));
    assert_eq!(parse_key_token("backspace"), Some(KeyCode::Backspace));
    assert_eq!(parse_key_token("delete"), Some(KeyCode::Delete));
    assert_eq!(parse_key_token("escape"), Some(KeyCode::Escape));
    assert_eq!(parse_key_token("esc"), Some(KeyCode::Escape));
    assert_eq!(parse_key_token("A"), None);
    assert_eq!(parse_key_token(""), None);
}

#[test]
fn chords_are_read_without_regard_to_case_and_space() {
    let expected = Chord { modifiers: mods(true, false, false, true), key: KeyCode::KeyG };
    assert_eq!(parse_hotkey_string("Cmd+Shift+G").unwrap(), expected);
    assert_eq!(parse_hotkey_string("cmd+shift+g").unwrap(), expected);
    assert_eq!(parse_hotkey_string(" SUPER + shift +  G ").unwrap(), expected);
    assert_eq!(parse_hotkey_string("command+Shift+g").unwrap(), expected);
    assert_eq!(parse_hotkey_string("shift+cmd+shift+g").unwrap(), expected);
    assert_eq!(
        parse_hotkey_string("Ctrl+Alt+F").unwrap(),
        Chord { modifiers: mods(false, true, true, false), key: KeyCode::KeyF }
    );
    assert_eq!(
        parse_hotkey_string("f5").unwrap(),
        Chord { modifiers: mods(false, false, false, false), key: KeyCode::F5 }
    );
    assert_eq!(
        parse_hotkey_string("option+]").unwrap(),
        Chord { modifiers: mods(false, false, true, false), key: KeyCode::BracketRight }
    );
    assert_eq!(
        parse_hotkey_string("control+BracketRight").unwrap(),
        Chord { modifiers: mods(false, true, false, false), key: KeyCode::BracketRight }
    );
    assert_eq!(
        parse_hotkey_string("cmd+space").unwrap(),
        Chord { modifiers: mods(true, false, false, false), key: KeyCode::Space }
    );
    assert_eq!(
        parse_hotkey_string("cmd+Enter").unwrap(),
        Chord { modifiers: mods(true, false, false, false), key: KeyCode::Enter }
    );
}

#[test]
fn case_is_folded_as_the_standard_library_folds_it() {
    // the Kelvin sign is an upper-case form of the letter k
    assert_eq!(
        parse_hotkey_string("Cmd+\u{212A}").unwrap(),
        Chord { modifiers: mods(true, false, false, false), key: KeyCode::KeyK }
    );
    assert_eq!(parse_modifiers("SHIFT").unwrap(), mods(false, false, false, true));
    assert_eq!(describe_hotkey("SHIFT+Cmd", "KeyK"), "Shift+Cmd+K");
}

#[test]
fn unknown_tokens_are_reported() {
    assert_eq!(invalid(parse_hotkey_string("Hyper+G")), "Unknown modifier: Hyper");
    assert_eq!(invalid(parse_hotkey_string("cmd+ Foo +bar+G")), "Unknown modifier: Foo");
    assert_eq!(invalid(parse_hotkey_string("cmd+shift+unknownkey")), "Unknown key: unknownkey");
    assert_eq!(invalid(parse_hotkey_string("cmd+ NoKey ")), "Unknown key: NoKey");
    assert_eq!(invalid(parse_hotkey_string("")), "Unknown key: ");
    assert_eq!(invalid(parse_hotkey_string("cmd+")), "Unknown key: ");
    assert_eq!(invalid(parse_hotkey_string("cmd++g")), "Unknown modifier: ");
    assert_eq!(invalid(parse_hotkey_string("g+cmd")), "Unknown modifier: g");
    // the modifiers are looked at before the key
    assert_eq!(invalid(parse_hotkey_string("nomod+nokey")), "Unknown modifier: nomod");
}

#[test]
fn descriptions_show_modifiers_and_keys() {
    assert_eq!(describe_hotkey("cmd+shift", "BracketRight"), "Cmd+Shift+]");
    assert_eq!(describe_hotkey("ctrl+alt", "KeyP"), "Ctrl+Alt+P");
    assert_eq!(describe_hotkey("SUPER + Option", "BracketLeft"), "Cmd+Alt+[");
    assert_eq!(describe_hotkey("control", "Backslash"), "Ctrl+\\");
    assert_eq!(describe_hotkey("command", "Semicolon"), "Cmd+;");
    assert_eq!(describe_hotkey("shift", "Space"), "Shift+Space");
    assert_eq!(describe_hotkey("shift", "Enter"), "Shift+Enter");
    assert_eq!(describe_hotkey(" Hyper +shift", "F5"), "Hyper+Shift+F5");
    assert_eq!(describe_hotkey("", "Key"), "+");
    assert_eq!(describe_hotkey("alt", "Keypad"), "Alt+pad");
}

#[test]
fn the_platform_gives_each_chord_its_identifier() {
    let a = parse_hotkey_string("cmd+shift+g").unwrap();
    let b = parse_hotkey_string("Cmd+Shift+G").unwrap();
    let c = parse_hotkey_string("cmd+shift+h").unwrap();
    let d = parse_hotkey_string("ctrl+shift+g").unwrap();
    assert!(a.id().is_some());
    assert_eq!(a.id(), b.id());
    assert_ne!(a.id(), c.id());
    assert_ne!(a.id(), d.id());
    assert_ne!(parse_hotkey_string("g").unwrap().id(), a.id());
}

#[test]
fn every_key_is_known_to_the_platform() {
    let tokens = [
        "a", "b", "c", "d", "e", "f", "g", "h", "i", "j", "k", "l", "m", "n", "o", "p", "q", "r",
        "s", "t", "u", "v", "w", "x", "y", "z", "0", "1", "2", "3", "4", "5", "6", "7", "8", "9",
        "f1", "f2", "f3", "f4", "f5", "f6", "f7", "f8", "f9", "f10", "f11", "f12", "]", "[", ";",
        "'", ",", ".", "/", "\\", "-", "=", "space", "enter", "tab", "backspace", "delete",
        "escape",
    ];
    let mut ids: Vec<u32> = Vec::new();
    for token in tokens {
        let chord = parse_hotkey_string(token).unwrap();
        let id = chord.id().unwrap();
        assert!(!ids.contains(&id), "two keys share an identifier: {}", token);
        ids.push(id);
        assert_eq!(parse_key_token(token), Some(chord.key));
        assert!(!chord.key.name().is_empty());
    }
    assert_eq!(ids.len(), 64);
}

#[test]
fn register_then_unregister_allows_registering_again() {
    let mut registry = HotkeyManager::new();
    let pending = registry.prepare_hotkey("t1".to_string(), "Cmd+Shift+G").unwrap();
    let id = pending.id;
    assert_eq!(pending.template_id, "t1");
    assert!(registry.register_hotkey(pending, Ok(())).is_ok());
    assert_eq!(registry.len(), 1);
    assert_eq!(registry.resolve(id), Some("t1".to_string()));

    let released = registry.unregister_hotkey("t1").unwrap();
    assert_eq!(released.id, id);
    assert_eq!(released.chord, parse_hotkey_string("cmd+shift+g").unwrap());
    assert_eq!(registry.len(), 0);
    assert_eq!(registry.resolve(id), None);

    // the same chord, for the same template
    let again = registry.prepare_hotkey("t1".to_string(), "Cmd+Shift+G").unwrap();
    assert_eq!(again.id, id);
    assert!(registry.register_hotkey(again, Ok(())).is_ok());
    assert_eq!(registry.resolve(id), Some("t1".to_string()));
    registry.unregister_hotkey("t1").unwrap();

    // the same chord, for another template
    let other = registry.prepare_hotkey("t2".to_string(), "cmd+shift+g").unwrap();
    assert!(registry.register_hotkey(other, Ok(())).is_ok());
    assert_eq!(registry.resolve(id), Some("t2".to_string()));
}

#[test]
fn a_chord_in_use_is_refused_and_the_first_binding_stays() {
    let mut registry = HotkeyManager::new();
    let first = registry.prepare_hotkey("t1".to_string(), "Ctrl+Alt+F").unwrap();
    let id = first.id;
    registry.register_hotkey(first, Ok(())).unwrap();

    assert!(matches!(
        registry.prepare_hotkey("t2".to_string(), "ctrl+alt+f"),
        Err(HotkeyError::AlreadyInUse)
    ));
    // a binding prepared elsewhere is refused too, whatever the platform said
    let elsewhere = HotkeyManager::new();
    let stray = elsewhere.prepare_hotkey("t2".to_string(), "ctrl+alt+f").unwrap();
    assert!(matches!(registry.register_hotkey(stray, Ok(())), Err(HotkeyError::AlreadyInUse)));
    assert_eq!(registry.len(), 1);
    assert_eq!(registry.resolve(id), Some("t1".to_string()));
    assert_eq!(registry.get_hotkey_map(), vec![(id, "t1".to_string())]);
    assert_eq!(elsewhere.len(), 0);
}

#[test]
fn a_template_has_one_chord_at_a_time() {
    let mut registry = HotkeyManager::new();
    let first = registry.prepare_hotkey("t1".to_string(), "cmd+1").unwrap();
    registry.register_hotkey(first, Ok(())).unwrap();
    match registry.prepare_hotkey("t1".to_string(), "cmd+2") {
        Err(HotkeyError::RegistrationFailed(d)) => {
            assert_eq!(d, "Template already has a hotkey: t1")
        }
        other => panic!("expected RegistrationFailed, got {:?}", other),
    }
    // rebinding: unregister first
    registry.unregister_hotkey("t1").unwrap();
    let second = registry.prepare_hotkey("t1".to_string(), "cmd+2").unwrap();
    let id2 = second.id;
    registry.register_hotkey(second, Ok(())).unwrap();
    assert_eq!(registry.resolve(id2), Some("t1".to_string()));
    assert_eq!(registry.len(), 1);
}

#[test]
fn the_platform_decides_a_registration_that_fits() {
    let mut registry = HotkeyManager::new();
    let p = registry.prepare_hotkey("t1".to_string(), "cmd+k").unwrap();
    let id = p.id;
    assert!(matches!(
        registry.register_hotkey(p, Err("HotKey already registered: x".to_string())),
        Err(HotkeyError::AlreadyInUse)
    ));
    assert_eq!(registry.len(), 0);
    assert_eq!(registry.resolve(id), None);

    let p = registry.prepare_hotkey("t1".to_string(), "cmd+k").unwrap();
    match registry.register_hotkey(p, Err("no display".to_string())) {
        Err(HotkeyError::RegistrationFailed(d)) => assert_eq!(d, "no display"),
        other => panic!("expected RegistrationFailed, got {:?}", other),
    }
    assert_eq!(registry.len(), 0);

    assert!(matches!(
        classify_registration_failure("the key is in use".to_string()),
        HotkeyError::AlreadyInUse
    ));
    assert!(matches!(
        classify_registration_failure("already".to_string()),
        HotkeyError::AlreadyInUse
    ));
    assert!(matches!(
        classify_registration_failure("In Use".to_string()),
        HotkeyError::RegistrationFailed(_)
    ));
}

#[test]
fn invalid_chords_are_refused_before_the_platform_is_asked() {
    let registry = HotkeyManager::new();
    match registry.prepare_hotkey("t1".to_string(), "hyper+g") {
        Err(HotkeyError::InvalidSpec(d)) => assert_eq!(d, "Unknown modifier: hyper"),
        other => panic!("expected InvalidSpec, got {:?}", other),
    }
    match registry.prepare_hotkey("t1".to_string(), "cmd+nokey") {
        Err(HotkeyError::InvalidSpec(d)) => assert_eq!(d, "Unknown key: nokey"),
        other => panic!("expected InvalidSpec, got {:?}", other),
    }
}

#[test]
fn unregistering_an_unknown_template_fails() {
    let mut registry = HotkeyManager::new();
    assert!(matches!(registry.unregister_hotkey("t1"), Err(HotkeyError::NotRegistered)));
    let p = registry.prepare_hotkey("t1".to_string(), "cmd+g").unwrap();
    registry.register_hotkey(p, Ok(())).unwrap();
    assert!(matches!(registry.unregister_hotkey("t2"), Err(HotkeyError::NotRegistered)));
    assert_eq!(registry.len(), 1);
    assert!(registry.unregister_hotkey("t1").is_ok());
    assert!(matches!(registry.unregister_hotkey("t1"), Err(HotkeyError::NotRegistered)));
}

#[test]
fn only_a_press_of_a_bound_chord_triggers_a_template() {
    let mut registry = HotkeyManager::new();
    let a = registry.prepare_hotkey("ta".to_string(), "cmd+a").unwrap();
    let id_a = a.id;
    registry.register_hotkey(a, Ok(())).unwrap();
    let b = registry.prepare_hotkey("tb".to_string(), "cmd+b").unwrap();
    let id_b = b.id;
    registry.register_hotkey(b, Ok(())).unwrap();

    assert_eq!(registry.check_events(None), None);
    assert_eq!(
        registry.check_events(Some(HotkeyEvent { id: id_a, pressed: true })),
        Some("ta".to_string())
    );
    assert_eq!(
        registry.check_events(Some(HotkeyEvent { id: id_b, pressed: true })),
        Some("tb".to_string())
    );
    assert_eq!(registry.check_events(Some(HotkeyEvent { id: id_a, pressed: false })), None);
    let unknown = parse_hotkey_string("cmd+c").unwrap().id().unwrap();
    assert_eq!(registry.check_events(Some(HotkeyEvent { id: unknown, pressed: true })), None);
    assert_eq!(
        registry.get_hotkey_map(),
        vec![(id_a, "ta".to_string()), (id_b, "tb".to_string())]
    );
}

#[test]
fn teardown_releases_every_binding() {
    let mut registry = HotkeyManager::new();
    for (t, spec) in [("t1", "cmd+1"), ("t2", "cmd+2"), ("t3", "cmd+3")] {
        let p = registry.prepare_hotkey(t.to_string(), spec).unwrap();
        registry.register_hotkey(p, Ok(())).unwrap();
    }
    let released = registry.release_all();
    assert_eq!(released.len(), 3);
    assert_eq!(released[0].template_id, "t1");
    assert_eq!(released[1].template_id, "t2");
    assert_eq!(released[2].template_id, "t3");
    assert_eq!(released[2].chord, parse_hotkey_string("cmd+3").unwrap());
    assert_eq!(registry.len(), 0);
    assert!(registry.release_all().is_empty());
}

#[test]
fn hotkey_errors_have_words() {
    assert_eq!(
        HotkeyError::ManagerCreationFailed("x".to_string()).message(),
        "Failed to create hotkey manager: x"
    );
    assert_eq!(
        HotkeyError::RegistrationFailed("y".to_string()).message(),
        "Failed to register hotkey: y"
    );
    assert_eq!(
        HotkeyError::AlreadyInUse.message(),
        "Hotkey is already in use by another application"
    );
    assert_eq!(HotkeyError::InvalidSpec("z".to_string()).message(), "Invalid hotkey: z");
    assert_eq!(HotkeyError::NotRegistered.message(), "No hotkey is registered for the template");
}
