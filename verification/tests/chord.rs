use openlogi::chord::KeyCombo;

#[test]
fn parse_typed_alt_tab() {
    let combo = KeyCombo::parse_typed("Alt+Tab").expect("parse");
    assert_eq!(combo.modifiers, KeyCombo::MOD_OPTION);
    assert_eq!(combo.key_code, 0x30);
    assert_eq!(combo.display, "Alt+Tab");
}

#[test]
fn parse_typed_ctrl_shift_c() {
    let combo = KeyCombo::parse_typed("ctrl+shift+c").expect("parse");
    assert_eq!(
        combo.modifiers,
        KeyCombo::MOD_CTRL | KeyCombo::MOD_SHIFT
    );
    assert_eq!(combo.key_code, 0x08); // C
    assert_eq!(combo.display, "Ctrl+Shift+C");
}

#[test]
fn parse_typed_rejects_modifier_only() {
    assert!(KeyCombo::parse_typed("Alt+").is_err());
    assert!(KeyCombo::parse_typed("Ctrl").is_err());
}

#[test]
fn key_combo_rendered_label_uses_display_when_set() {
    let combo = KeyCombo {
        modifiers: 0,
        key_code: 0,
        display: "preset".into(),
    };
    assert_eq!(combo.rendered_label(), "preset");
}

#[test]
fn key_combo_rendered_label_falls_back_to_modifiers_plus_key() {
    let combo = KeyCombo {
        modifiers: KeyCombo::MOD_CMD | KeyCombo::MOD_SHIFT,
        key_code: 0x23, // P
        display: String::new(),
    };
    assert_eq!(combo.rendered_label(), "⇧⌘P");
}

#[test]
fn each_mistake_has_its_message() {
    let message = |input: &str| KeyCombo::parse_typed(input).expect_err("refused");
    assert_eq!(message(""), "Type a shortcut, e.g. Alt+Tab");
    assert_eq!(message(" + +"), "Type a shortcut, e.g. Alt+Tab");
    assert_eq!(message("Ctrl+Shift"), "Add a key after the modifiers, e.g. Alt+Tab");
    assert_eq!(message("Hyper+A"), "Unknown modifier 'Hyper'");
    assert_eq!(message("A+Ctrl"), "Unknown modifier 'A'");
    assert_eq!(message("Ctrl+Banana"), "Unknown key 'Banana'");
    assert_eq!(message("é"), "Unknown key 'é'");
}

#[test]
fn modifiers_are_shown_in_one_order() {
    let combo = KeyCombo::parse_typed(" super + shift+ALT +control+ f5 ").expect("parse");
    assert_eq!(
        combo.modifiers,
        KeyCombo::MOD_CMD | KeyCombo::MOD_SHIFT | KeyCombo::MOD_CTRL | KeyCombo::MOD_OPTION
    );
    assert_eq!(combo.key_code, 0x60);
    assert_eq!(combo.display, "Ctrl+Alt+Shift+Win+F5");
}

#[test]
fn what_is_shown_can_be_typed_again() {
    for input in ["alt+tab", "win+d", "ctrl+ctrl+x", "space", "shift+pagedown", "opt+7", "CMD+f12"] {
        let combo = KeyCombo::parse_typed(input).expect("parse");
        let again = KeyCombo::parse_typed(&combo.display).expect("parse again");
        assert_eq!(again, combo, "{input}");
        assert_eq!(combo.rendered_label(), combo.display);
    }
}

#[test]
fn a_key_without_a_name_is_shown_by_its_code() {
    let combo = KeyCombo {
        modifiers: KeyCombo::MOD_CTRL | KeyCombo::MOD_OPTION,
        key_code: 0x7A,
        display: String::new(),
    };
    assert_eq!(combo.rendered_label(), "⌃⌥key 0x7A");
}

#[test]
fn every_listed_key_is_known_in_any_case_and_is_its_own() {
    let mut names: Vec<String> = ('A'..='Z').chain('0'..='9').map(|c| c.to_string()).collect();
    names.extend((1..=12).map(|n| format!("F{n}")));
    for name in [
        "Tab", "Space", "Enter", "Esc", "Backspace", "Delete", "Left", "Right", "Up", "Down",
        "Home", "End", "PageUp", "PageDown", "-", "=", "[", "]", "\\", ";", "'", ",", ".", "/",
        "`",
    ] {
        names.push(name.to_string());
    }
    assert_eq!(names.len(), 73);
    let mut codes: Vec<u16> = Vec::new();
    for name in names {
        let code = KeyCombo::parse_typed(&name).expect("parse").key_code;
        assert_eq!(KeyCombo::parse_typed(&name.to_lowercase()).expect("parse").key_code, code);
        assert_eq!(KeyCombo::parse_typed(&name.to_uppercase()).expect("parse").key_code, code);
        assert!(!codes.contains(&code), "{name} has a code of its own");
        codes.push(code);
    }
}
