use tb::hotkey::{
    build_modifiers, load_hotkey, parse_hotkey_expression, parse_key_token,
    save_hotkey_expression, serialize, HotkeyRegistration, ParseError,
};
use tb::keys::{MOD_ALT, MOD_CONTROL, MOD_SHIFT, MOD_WIN, VK_F1, VK_F24, VK_TAB};

fn parse_ok(expression: &str) -> (String, u32, u32) {
    match parse_hotkey_expression(expression) {
        Ok(h) => (h.expression, h.registration.modifiers, h.registration.vk),
        Err(e) => panic!("{} did not parse: {}", expression, e.message()),
    }
}

#[test]
fn default_expression_parses() {
    let (text, modifiers, vk) = parse_ok("Ctrl+Shift+B");
    assert_eq!(text, "Ctrl+Shift+B");
    assert_eq!(modifiers, MOD_CONTROL | MOD_SHIFT);
    assert_eq!(modifiers, 6);
    assert_eq!(vk, 0x42);
}

#[test]
fn order_of_modifiers_does_not_matter() {
    let a = parse_ok("Shift+Ctrl+B");
    let b = parse_ok("Ctrl+Shift+B");
    assert_eq!(a, b);
    assert_eq!(a.0, "Ctrl+Shift+B");
    let c = parse_ok("B+Shift+Ctrl");
    assert_eq!(c, b);
}

#[test]
fn duplicate_modifiers_collapse() {
    assert_eq!(parse_ok("Ctrl+Ctrl+B"), parse_ok("Ctrl+B"));
    assert_eq!(parse_ok("Ctrl+Ctrl+B").0, "Ctrl+B");
    assert_eq!(parse_ok("ctrl control CONTROL b").0, "Ctrl+B");
}

#[test]
fn empty_expression_is_refused() {
    assert!(matches!(parse_hotkey_expression(""), Err(ParseError::EmptyExpression)));
    assert!(matches!(parse_hotkey_expression(" + \t ++"), Err(ParseError::EmptyExpression)));
    assert!(matches!(parse_hotkey_expression("\n"), Err(ParseError::EmptyExpression)));
}

#[test]
fn missing_key_is_refused() {
    assert!(matches!(parse_hotkey_expression("Ctrl+Shift"), Err(ParseError::MissingKey)));
    assert!(matches!(parse_hotkey_expression("win"), Err(ParseError::MissingKey)));
}

#[test]
fn multiple_keys_are_refused() {
    assert!(matches!(parse_hotkey_expression("Ctrl+A+B"), Err(ParseError::MultipleKeys)));
    assert!(matches!(parse_hotkey_expression("A+Xyz"), Err(ParseError::MultipleKeys)));
    assert!(matches!(parse_hotkey_expression("A A"), Err(ParseError::MultipleKeys)));
}

#[test]
fn unsupported_key_is_refused_with_its_word() {
    match parse_hotkey_expression("Ctrl+Xyz") {
        Err(ParseError::UnsupportedKey(word)) => assert_eq!(word, "xyz"),
        _ => panic!("expected an unsupported key"),
    }
    match parse_hotkey_expression("Xyz+A") {
        Err(ParseError::UnsupportedKey(word)) => assert_eq!(word, "xyz"),
        _ => panic!("expected an unsupported key"),
    }
    assert!(matches!(parse_hotkey_expression("Ctrl+ab"), Err(ParseError::UnsupportedKey(_))));
    assert!(matches!(parse_hotkey_expression("Ctrl+é"), Err(ParseError::UnsupportedKey(_))));
    assert!(matches!(parse_hotkey_expression("Ctrl+-"), Err(ParseError::UnsupportedKey(_))));
}

#[test]
fn error_messages() {
    assert_eq!(ParseError::EmptyExpression.message(), "Hotkey expression cannot be empty");
    assert_eq!(ParseError::MissingKey.message(), "Hotkey key is missing");
    assert_eq!(
        ParseError::MultipleKeys.message(),
        "Hotkey expression must contain exactly one non-modifier key"
    );
    assert_eq!(
        ParseError::UnsupportedKey("xyz".to_string()).message(),
        "Unsupported hotkey key token: xyz"
    );
}

#[test]
fn function_keys_one_to_twenty_four() {
    for n in 1u32..=24 {
        let (text, modifiers, vk) = parse_ok(&format!("f{}", n));
        assert_eq!(text, format!("F{}", n));
        assert_eq!(modifiers, 0);
        assert_eq!(vk, VK_F1 + n - 1);
    }
    assert_eq!(parse_ok("F24").2, VK_F24);
    assert_eq!(parse_ok("F24").2, 0x87);
    assert_eq!(parse_ok("f1").2, 0x70);
    assert_eq!(parse_ok("alt+f4"), ("Alt+F4".to_string(), MOD_ALT, 0x73));
}

#[test]
fn function_key_bounds() {
    assert!(matches!(parse_hotkey_expression("f0"), Err(ParseError::UnsupportedKey(_))));
    assert!(matches!(parse_hotkey_expression("f25"), Err(ParseError::UnsupportedKey(_))));
    assert!(matches!(parse_hotkey_expression("f256"), Err(ParseError::UnsupportedKey(_))));
    assert!(matches!(parse_hotkey_expression("f99999999999999999999"), Err(ParseError::UnsupportedKey(_))));
    assert!(matches!(parse_hotkey_expression("f1x"), Err(ParseError::UnsupportedKey(_))));
    assert!(matches!(parse_hotkey_expression("f-1"), Err(ParseError::UnsupportedKey(_))));
}

#[test]
fn function_key_with_leading_zeros() {
    assert_eq!(parse_ok("f07"), ("F7".to_string(), 0, 0x76));
    assert_eq!(parse_ok("f0012").0, "F12");
}

#[test]
fn single_letters_and_digits() {
    for c in "abcdefghijklmnopqrstuvwxyzABCDEFGHIJKLMNOPQRSTUVWXYZ0123456789".chars() {
        let (text, modifiers, vk) = parse_ok(&c.to_string());
        let upper = c.to_ascii_uppercase();
        assert_eq!(text, upper.to_string());
        assert_eq!(modifiers, 0);
        assert_eq!(vk, upper as u32);
    }
    assert_eq!(parse_ok("f"), ("F".to_string(), 0, 0x46));
}

#[test]
fn alias_table() {
    let cases: Vec<(&str, u32, &str)> = vec![
        ("space", 0x20, "Space"),
        ("tab", 0x09, "Tab"),
        ("enter", 0x0D, "Enter"),
        ("return", 0x0D, "Enter"),
        ("esc", 0x1B, "Escape"),
        ("escape", 0x1B, "Escape"),
        ("backspace", 0x08, "Backspace"),
        ("bksp", 0x08, "Backspace"),
        ("insert", 0x2D, "Insert"),
        ("ins", 0x2D, "Insert"),
        ("delete", 0x2E, "Delete"),
        ("del", 0x2E, "Delete"),
        ("home", 0x24, "Home"),
        ("end", 0x23, "End"),
        ("pageup", 0x21, "PageUp"),
        ("pgup", 0x21, "PageUp"),
        ("pagedown", 0x22, "PageDown"),
        ("pgdn", 0x22, "PageDown"),
        ("up", 0x26, "Up"),
        ("arrowup", 0x26, "Up"),
        ("down", 0x28, "Down"),
        ("arrowdown", 0x28, "Down"),
        ("left", 0x25, "Left"),
        ("arrowleft", 0x25, "Left"),
        ("right", 0x27, "Right"),
        ("arrowright", 0x27, "Right"),
    ];
    for (name, vk, label) in cases {
        assert_eq!(parse_ok(name), (label.to_string(), 0, vk));
        assert_eq!(parse_ok(&name.to_uppercase()), (label.to_string(), 0, vk));
        let key = parse_key_token(name).unwrap();
        assert_eq!(key.vk, vk);
        assert_eq!(key.label, label);
    }
}

#[test]
fn modifier_aliases() {
    assert_eq!(parse_ok("control+a"), ("Ctrl+A".to_string(), MOD_CONTROL, 0x41));
    assert_eq!(parse_ok("windows+a"), ("Win+A".to_string(), MOD_WIN, 0x41));
    assert_eq!(parse_ok("meta+a"), ("Win+A".to_string(), MOD_WIN, 0x41));
    assert_eq!(parse_ok("WIN+a"), ("Win+A".to_string(), MOD_WIN, 0x41));
    assert_eq!(
        parse_ok("win alt shift ctrl 9"),
        ("Ctrl+Shift+Alt+Win+9".to_string(), MOD_CONTROL | MOD_SHIFT | MOD_ALT | MOD_WIN, 0x39)
    );
}

#[test]
fn separators_and_blanks() {
    assert_eq!(parse_ok("ctrl \t+ shift++b").0, "Ctrl+Shift+B");
    assert_eq!(parse_ok("  alt+tab  "), ("Alt+Tab".to_string(), MOD_ALT, VK_TAB));
    assert_eq!(parse_ok("ctrl+\nb\r\n").0, "Ctrl+B");
    assert!(matches!(parse_hotkey_expression("ctrl+a\nb"), Err(ParseError::UnsupportedKey(_))));
}

#[test]
fn modifier_flags() {
    assert_eq!(build_modifiers(false, false, false, false), 0);
    assert_eq!(build_modifiers(true, false, false, false), 2);
    assert_eq!(build_modifiers(false, true, false, false), 4);
    assert_eq!(build_modifiers(false, false, true, false), 1);
    assert_eq!(build_modifiers(false, false, false, true), 8);
    assert_eq!(build_modifiers(true, true, true, true), 15);
}

#[test]
fn canonical_text() {
    assert_eq!(serialize(false, false, false, false, "B"), "B");
    assert_eq!(serialize(true, true, true, true, "F12"), "Ctrl+Shift+Alt+Win+F12");
    assert_eq!(serialize(false, true, false, true, "Space"), "Shift+Win+Space");
}

#[test]
fn round_trip_on_canonical_text() {
    for expression in ["shift ctrl b", "win+pgdn", "f13 alt", "META CONTROL 7", "arrowleft"] {
        let first = parse_hotkey_expression(expression).unwrap();
        let second = parse_hotkey_expression(&first.expression).unwrap();
        assert_eq!(second.expression, first.expression);
        assert_eq!(second.registration, first.registration);
    }
}

#[test]
fn key_token_resolution() {
    let key = parse_key_token("b").unwrap();
    assert_eq!((key.vk, key.label.as_str()), (0x42, "B"));
    let key = parse_key_token("f24").unwrap();
    assert_eq!((key.vk, key.label.as_str()), (0x87, "F24"));
    match parse_key_token("nope") {
        Err(ParseError::UnsupportedKey(word)) => assert_eq!(word, "nope"),
        _ => panic!("expected an unsupported key"),
    }
}

#[test]
fn loading_an_absent_store_gives_the_default() {
    let h = load_hotkey(None).unwrap();
    assert_eq!(h.expression, "Ctrl+Shift+B");
    assert_eq!(h.registration, HotkeyRegistration { modifiers: 6, vk: 0x42 });
}

#[test]
fn loading_a_blank_store_gives_the_default() {
    for stored in ["", "   ", "\n", " \r\n\t "] {
        let h = load_hotkey(Some(stored)).unwrap();
        assert_eq!(h.expression, "Ctrl+Shift+B");
    }
}

#[test]
fn loading_a_stored_expression() {
    let h = load_hotkey(Some("Alt+Tab\n")).unwrap();
    assert_eq!(h.expression, "Alt+Tab");
    assert_eq!(h.registration, HotkeyRegistration { modifiers: MOD_ALT, vk: VK_TAB });
}

#[test]
fn loading_an_invalid_store_keeps_text_and_cause() {
    let e = load_hotkey(Some("  ctrl+xyz \n")).unwrap_err();
    assert_eq!(e.text, "ctrl+xyz");
    assert!(matches!(e.cause, ParseError::UnsupportedKey(_)));
    assert_eq!(
        e.message("C:\\tb\\hotkey.txt"),
        "Invalid hotkey expression in C:\\tb\\hotkey.txt: ctrl+xyz"
    );
    let e = load_hotkey(Some("ctrl")).unwrap_err();
    assert!(matches!(e.cause, ParseError::MissingKey));
}

#[test]
fn saving_gives_canonical_text_with_newline() {
    let (h, content) = save_hotkey_expression("alt+tab").unwrap();
    assert_eq!(h.expression, "Alt+Tab");
    assert_eq!(content, "Alt+Tab\n");
    let reloaded = load_hotkey(Some(&content)).unwrap();
    assert_eq!(reloaded.expression, "Alt+Tab");
    assert_eq!(reloaded.registration, h.registration);
}

#[test]
fn saving_an_invalid_expression_fails_before_any_content() {
    assert!(matches!(save_hotkey_expression("alt+"), Err(ParseError::MissingKey)));
    assert!(matches!(save_hotkey_expression(""), Err(ParseError::EmptyExpression)));
}
