use openlogi::binding::{
    default_binding, default_gesture_binding, Action, Binding, ButtonId, GestureDirection,
};
use openlogi::bindings::{bindings_for, gesture_bindings_for, oshook_gestures_for};
use openlogi::config::Config;
use openlogi::ordered_map::OrderedMap;

fn directions(entries: &[(GestureDirection, Action)]) -> OrderedMap<GestureDirection, Action> {
    let mut map = OrderedMap::new();
    for (direction, action) in entries {
        map.insert(*direction, action.clone());
    }
    map
}

#[test]
fn click_less_gesture_keeps_default_click_in_projection() {
    // A gesture binding with no explicit `Click` (a migrated sparse v1 map or
    // a hand-edited config) must not project to `Action::None` and silently
    // disable the button — the button's default click survives.
    let mut cfg = Config::default();
    let mut map = OrderedMap::new();
    map.insert(GestureDirection::Up, Action::Copy);
    cfg.set_binding("2b042", ButtonId::GestureButton, Binding::Gesture(map));

    let projected = bindings_for(&cfg, Some("2b042"), None);
    assert_eq!(
        projected.get(&ButtonId::GestureButton),
        Some(&default_binding(ButtonId::GestureButton)),
        "a Click-less gesture must keep the default click, not None"
    );
}

#[test]
fn explicit_gesture_click_overrides_default_in_projection() {
    // A gesture binding that DOES define `Click` projects that action.
    let mut cfg = Config::default();
    let mut map = OrderedMap::new();
    map.insert(GestureDirection::Click, Action::Paste);
    cfg.set_binding("2b042", ButtonId::GestureButton, Binding::Gesture(map));

    let projected = bindings_for(&cfg, Some("2b042"), None);
    assert_eq!(
        projected.get(&ButtonId::GestureButton),
        Some(&Action::Paste)
    );
}

#[test]
fn oshook_gestures_collects_every_os_hook_gesture_button() {
    let mut cfg = Config::default();
    // Two OS-hook buttons in gesture mode — BOTH included (no single-owner
    // lock), each with its raw map preserved.
    cfg.set_binding(
        "2b042",
        ButtonId::Back,
        Binding::Gesture(directions(&[(GestureDirection::Up, Action::Copy)])),
    );
    cfg.set_binding(
        "2b042",
        ButtonId::Forward,
        Binding::Gesture(directions(&[(GestureDirection::Down, Action::Paste)])),
    );
    // A single-mode Middle — excluded (not a gesture button).
    cfg.set_binding("2b042", ButtonId::MiddleClick, Action::MiddleClick.into());
    // The dedicated HID++ gesture button — excluded (it never reaches the
    // OS hook, so it must not appear in the hook's gesture map).
    cfg.set_binding(
        "2b042",
        ButtonId::GestureButton,
        Binding::Gesture(directions(&[(
            GestureDirection::Up,
            Action::MissionControl,
        )])),
    );

    let oshook = oshook_gestures_for(&cfg, Some("2b042"), None);
    assert_eq!(oshook.len(), 2, "both gesture-mode OS-hook buttons belong here");
    assert_eq!(
        oshook.get(&ButtonId::Back),
        Some(&directions(&[(GestureDirection::Up, Action::Copy)]))
    );
    assert_eq!(
        oshook.get(&ButtonId::Forward),
        Some(&directions(&[(GestureDirection::Down, Action::Paste)]))
    );
    assert!(!oshook.contains_key(&ButtonId::MiddleClick));
    assert!(!oshook.contains_key(&ButtonId::GestureButton));
}

#[test]
fn per_app_override_drops_one_button_but_keeps_the_others() {
    // Back and Forward both gesture globally...
    let mut cfg = Config::default();
    cfg.enable_gesture("2b042", ButtonId::Back);
    cfg.enable_gesture("2b042", ButtonId::Forward);
    let global = oshook_gestures_for(&cfg, Some("2b042"), None);
    assert!(global.contains_key(&ButtonId::Back), "Back gestures globally");
    assert!(global.contains_key(&ButtonId::Forward));

    // ...but a per-app override of Back makes it a single action in that app,
    // so it drops out of the gesture set there — while Forward keeps gesturing.
    cfg.set_per_app_binding(
        "2b042",
        "com.apple.Safari",
        ButtonId::Back,
        Some(Action::NextTab),
    );
    let scoped = oshook_gestures_for(&cfg, Some("2b042"), Some("com.apple.Safari"));
    assert!(
        !scoped.contains_key(&ButtonId::Back),
        "a per-app override of a gesture button removes only it"
    );
    assert!(
        scoped.contains_key(&ButtonId::Forward),
        "the other gesture button is unaffected"
    );
    // Other apps are unaffected — Back still gestures.
    assert!(
        oshook_gestures_for(&cfg, Some("2b042"), Some("com.other.App"))
            .contains_key(&ButtonId::Back)
    );
}

#[test]
fn gesture_bindings_silent_when_hidpp_button_is_off() {
    let mut cfg = Config::default();
    // Default device: the dedicated HID++ gesture button is on, so its defaults are seeded.
    let defaults = gesture_bindings_for(&cfg, Some("2b042"));
    assert_eq!(
        defaults.get(&GestureDirection::Up),
        Some(&default_gesture_binding(GestureDirection::Up)),
        "the HID++ gesture button gestures by default"
    );

    // Turning the HID++ gesture button off makes it go silent, so the watcher
    // dispatches nothing for 0x00c3 — independent of other buttons gesturing.
    cfg.enable_gesture("2b042", ButtonId::Back);
    cfg.disable_gesture("2b042", ButtonId::GestureButton);
    assert!(
        gesture_bindings_for(&cfg, Some("2b042")).is_empty(),
        "HID++ gesture button must dispatch nothing once it is turned off"
    );
}

#[test]
fn every_button_has_an_action_without_a_device() {
    let cfg = Config::default();
    let projected = bindings_for(&cfg, None, None);
    assert_eq!(projected.len(), ButtonId::ALL.len());
    for button in ButtonId::ALL {
        assert_eq!(projected.get(&button), Some(&default_binding(button)));
    }
    assert!(gesture_bindings_for(&cfg, None).is_empty());
    assert!(oshook_gestures_for(&cfg, None, None).is_empty());
}

#[test]
fn a_button_that_was_disabled_stays_disabled() {
    let mut cfg = Config::default();
    cfg.set_binding("2b042", ButtonId::Back, Binding::Single(Action::DoNothing));
    let projected = bindings_for(&cfg, Some("2b042"), None);
    assert_eq!(projected.get(&ButtonId::Back), Some(&Action::DoNothing));
}

#[test]
fn an_override_of_a_gesture_button_is_what_its_press_does() {
    let mut cfg = Config::default();
    cfg.enable_gesture("2b042", ButtonId::Back);
    cfg.set_per_app_binding("2b042", "com.example.App", ButtonId::Back, Some(Action::Undo));
    let scoped = bindings_for(&cfg, Some("2b042"), Some("com.example.App"));
    assert_eq!(scoped.get(&ButtonId::Back), Some(&Action::Undo));
    let global = bindings_for(&cfg, Some("2b042"), None);
    assert_eq!(global.get(&ButtonId::Back), Some(&Action::BrowserBack));
}

#[test]
fn stored_directions_come_before_their_defaults() {
    let mut cfg = Config::default();
    cfg.set_binding(
        "2b042",
        ButtonId::GestureButton,
        Binding::Gesture(directions(&[(GestureDirection::Up, Action::Copy)])),
    );
    let map = gesture_bindings_for(&cfg, Some("2b042"));
    assert_eq!(map.len(), 5);
    assert_eq!(map.get(&GestureDirection::Up), Some(&Action::Copy));
    assert_eq!(
        map.get(&GestureDirection::Down),
        Some(&default_gesture_binding(GestureDirection::Down))
    );
}

#[test]
fn disabling_keeps_what_a_press_does() {
    let mut cfg = Config::default();
    cfg.set_binding("2b042", ButtonId::Forward, Action::Save.into());
    cfg.enable_gesture("2b042", ButtonId::Forward);
    let before = bindings_for(&cfg, Some("2b042"), None);
    cfg.disable_gesture("2b042", ButtonId::Forward);
    let after = bindings_for(&cfg, Some("2b042"), None);
    assert_eq!(after.get(&ButtonId::Forward), before.get(&ButtonId::Forward));
    assert!(oshook_gestures_for(&cfg, Some("2b042"), None).is_empty());
}
