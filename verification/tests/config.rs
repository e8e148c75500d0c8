use openlogi::binding::{
    default_binding, default_gesture_binding, Action, Binding, ButtonId, GestureDirection,
};
use openlogi::chord::KeyCombo;
use openlogi::config::{
    clamp_brightness, default_lighting_brightness, default_lighting_color,
    default_lighting_enabled, default_thumbwheel_sensitivity, default_true, is_false, AppSettings,
    Appearance, Config, DeviceConfig, DeviceIdentity, Lighting, RawDeviceConfig, SmartShift,
    WheelMode, SCHEMA_VERSION,
};
use openlogi::device::{Capabilities, DeviceKind};
use openlogi::document::Document;
use openlogi::ordered_map::OrderedMap;

/// A record without anything in it.
fn empty_record() -> RawDeviceConfig {
    RawDeviceConfig {
        identity: None,
        bindings: OrderedMap::new(),
        button_bindings: OrderedMap::new(),
        gesture_bindings: OrderedMap::new(),
        per_app_bindings: OrderedMap::new(),
        dpi_presets: Vec::new(),
        dpi: None,
        lighting: None,
        smartshift: None,
        invert_scroll: false,
    }
}

/// A document of `schema_version` with one device.
fn document(schema_version: u32, key: &str, record: RawDeviceConfig) -> Document {
    let mut devices = OrderedMap::new();
    devices.insert(key.to_string(), record);
    Document {
        schema_version,
        app_settings: None,
        selected_device: None,
        devices,
    }
}

/// A document of `schema_version` without devices.
fn bare_document(schema_version: u32) -> Document {
    Document {
        schema_version,
        app_settings: None,
        selected_device: None,
        devices: OrderedMap::new(),
    }
}

fn write_and_read(config: &Config) -> Config {
    Config::from_document(Some(config.to_document())).expect("load")
}

fn directions(entries: &[(GestureDirection, Action)]) -> OrderedMap<GestureDirection, Action> {
    let mut map = OrderedMap::new();
    for (direction, action) in entries {
        map.insert(*direction, action.clone());
    }
    map
}

fn singles(entries: &[(ButtonId, Action)]) -> OrderedMap<ButtonId, Action> {
    let mut map = OrderedMap::new();
    for (button, action) in entries {
        map.insert(*button, action.clone());
    }
    map
}

#[test]
fn missing_file_yields_default() {
    let cfg = Config::from_document(None).expect("load");
    assert_eq!(cfg.schema_version, SCHEMA_VERSION);
    assert!(cfg.devices.is_empty());
}

#[test]
fn migrates_v1_button_and_gesture_bindings() {
    // Version 1: single actions and a flat map of directions.
    let v1 = RawDeviceConfig {
        button_bindings: singles(&[(ButtonId::Back, Action::BrowserBack)]),
        gesture_bindings: directions(&[
            (GestureDirection::Up, Action::Copy),
            (GestureDirection::Click, Action::Paste),
        ]),
        ..empty_record()
    };
    let cfg = Config::from_document(Some(document(1, "2b042", v1))).expect("load v1");
    let bindings = cfg.bindings_for("2b042");
    assert_eq!(
        bindings.get(&ButtonId::Back),
        Some(&Binding::Single(Action::BrowserBack))
    );
    assert_eq!(
        bindings.get(&ButtonId::GestureButton),
        Some(&Binding::Gesture(directions(&[
            (GestureDirection::Up, Action::Copy),
            (GestureDirection::Click, Action::Paste),
        ])))
    );

    // Saving writes the current version and shape.
    let saved = cfg.to_document();
    assert_eq!(saved.schema_version, 3);
    let record = saved.devices.get("2b042").expect("record");
    assert_eq!(record.bindings, cfg.bindings_for("2b042"));
    assert!(record.button_bindings.is_empty());
    assert!(record.gesture_bindings.is_empty());
}

#[test]
fn migration_gesture_map_wins_over_legacy_single_gesture_button_entry() {
    let v1 = RawDeviceConfig {
        button_bindings: singles(&[(ButtonId::GestureButton, Action::MissionControl)]),
        gesture_bindings: directions(&[
            (GestureDirection::Up, Action::Copy),
            (GestureDirection::Down, Action::Paste),
        ]),
        ..empty_record()
    };
    let cfg = Config::from_document(Some(document(1, "2b042", v1))).expect("load v1");
    assert_eq!(
        cfg.bindings_for("2b042").get(&ButtonId::GestureButton),
        Some(&Binding::Gesture(directions(&[
            (GestureDirection::Up, Action::Copy),
            (GestureDirection::Down, Action::Paste),
        ]))),
        "gesture map must win over the legacy single GestureButton entry"
    );
}

#[test]
fn migration_drops_vestigial_lone_gesture_button_single() {
    let v1 = RawDeviceConfig {
        button_bindings: singles(&[
            (ButtonId::GestureButton, Action::MissionControl),
            (ButtonId::Back, Action::BrowserBack),
        ]),
        ..empty_record()
    };
    let bindings = Config::from_document(Some(document(1, "2b042", v1)))
        .expect("load v1")
        .bindings_for("2b042");
    assert_eq!(
        bindings.get(&ButtonId::Back),
        Some(&Binding::Single(Action::BrowserBack))
    );
    assert_eq!(bindings.get(&ButtonId::GestureButton), None);
}

#[test]
fn rejects_newer_schema_version_but_accepts_v1() {
    assert_eq!(
        Config::from_document(Some(bare_document(99))).expect_err("v99 should fail"),
        99
    );
    assert!(
        Config::from_document(Some(bare_document(1))).is_ok(),
        "v1 should still load"
    );
}

#[test]
fn lighting_roundtrips_per_device() {
    let mut cfg = Config::default();
    cfg.set_lighting(
        "g513",
        Lighting {
            enabled: true,
            color: "00aabb".to_string(),
            brightness: 75,
        },
    );
    let restored = write_and_read(&cfg);
    assert_eq!(
        restored.lighting("g513"),
        Some(Lighting {
            enabled: true,
            color: "00aabb".to_string(),
            brightness: 75,
        })
    );
    assert_eq!(restored.lighting("absent"), None);
}

#[test]
fn dpi_roundtrips_per_device() {
    let mut cfg = Config::default();
    cfg.set_dpi("2b042", 1600);
    let restored = write_and_read(&cfg);
    assert_eq!(restored.dpi("2b042"), Some(1600));
    assert_eq!(restored.dpi("absent"), None);
}

#[test]
fn smartshift_roundtrips_per_device() {
    let mut cfg = Config::default();
    cfg.set_smartshift(
        "2b042",
        SmartShift {
            mode: WheelMode::Ratchet,
            auto_disengage: 16,
            tunable_torque: 30,
        },
    );
    let restored = write_and_read(&cfg);
    assert_eq!(
        restored.smartshift("2b042"),
        Some(SmartShift {
            mode: WheelMode::Ratchet,
            auto_disengage: 16,
            tunable_torque: 30,
        })
    );
    assert_eq!(restored.smartshift("absent"), None);
}

#[test]
fn invert_scroll_roundtrips_per_device() {
    let mut cfg = Config::default();
    // Default is the native direction for any device, present or not.
    assert!(!cfg.invert_scroll("2b042"));
    cfg.set_invert_scroll("2b042", true);
    let restored = write_and_read(&cfg);
    assert!(restored.invert_scroll("2b042"));
    assert!(!restored.invert_scroll("absent"));
}

#[test]
fn bindings_roundtrip_per_device() {
    let mut cfg = Config::default();
    cfg.set_binding("2b042", ButtonId::Back, Binding::Single(Action::Copy));
    cfg.set_binding(
        "2b042",
        ButtonId::DpiToggle,
        Binding::Single(Action::CustomShortcut(KeyCombo {
            modifiers: KeyCombo::MOD_CMD,
            key_code: 0x23, // kVK_ANSI_P
            display: "⌘P".into(),
        })),
    );
    cfg.set_binding("4082d", ButtonId::Back, Binding::Single(Action::Paste));

    let parsed = write_and_read(&cfg);

    // Per-device isolation.
    let a = parsed.bindings_for("2b042");
    assert_eq!(a.get(&ButtonId::Back), Some(&Binding::Single(Action::Copy)));
    assert_eq!(
        a.get(&ButtonId::DpiToggle),
        Some(&Binding::Single(Action::CustomShortcut(
            KeyCombo {
                modifiers: KeyCombo::MOD_CMD,
                key_code: 0x23,
                display: "⌘P".into(),
            }
        )))
    );

    let b = parsed.bindings_for("4082d");
    assert_eq!(
        b.get(&ButtonId::Back),
        Some(&Binding::Single(Action::Paste))
    );
    assert_eq!(b.len(), 1, "device b should only see its own bindings");

    // Unknown device returns empty map without panic.
    assert!(parsed.bindings_for("deadbeef").is_empty());
}

#[test]
fn dpi_presets_roundtrip_per_device() {
    let mut cfg = Config::default();
    cfg.set_dpi_presets("2b042", vec![800, 1600, 3200]);
    cfg.set_dpi_presets("4082d", vec![400, 1600]);

    let parsed = write_and_read(&cfg);

    assert_eq!(parsed.dpi_presets("2b042"), vec![800, 1600, 3200]);
    assert_eq!(parsed.dpi_presets("4082d"), vec![400, 1600]);
    assert!(parsed.dpi_presets("unknown").is_empty());
}

#[test]
fn device_identity_roundtrips_and_is_iterable() {
    let mut cfg = Config::default();
    let mouse = DeviceIdentity {
        display_name: "MX Master 3S".to_string(),
        model_info: None,
        codename: None,
        kind: DeviceKind::Mouse,
        capabilities: Capabilities {
            buttons: true,
            pointer: true,
            lighting: false,
            scroll_inversion: false,
        },
    };
    cfg.set_device_identity("2b034", mouse.clone());
    // Recording an identity must not disturb unrelated per-device state.
    cfg.set_binding(
        "2b034",
        ButtonId::Back,
        Binding::Single(Action::BrowserBack),
    );

    let parsed = write_and_read(&cfg);
    assert_eq!(parsed.device_identity("2b034"), Some(&mouse));
    assert_eq!(parsed.device_identity("absent"), None);
    assert_eq!(
        parsed.bindings_for("2b034").get(&ButtonId::Back),
        Some(&Binding::Single(Action::BrowserBack)),
        "identity must coexist with bindings on the same device block"
    );
    assert_eq!(
        parsed.known_identities(),
        vec![("2b034", &mouse)]
    );
}

#[test]
fn selected_device_roundtrips() {
    let mut cfg = Config::default();
    assert_eq!(cfg.selected_device(), None);
    cfg.set_selected_device(Some("2b042".into()));
    let parsed = write_and_read(&cfg);
    assert_eq!(parsed.selected_device(), Some("2b042"));
}

#[test]
fn per_app_overlay_takes_precedence() {
    let mut cfg = Config::default();
    cfg.set_binding(
        "2b042",
        ButtonId::Back,
        Binding::Single(Action::BrowserBack),
    );
    cfg.set_binding(
        "2b042",
        ButtonId::Forward,
        Binding::Single(Action::BrowserForward),
    );
    cfg.set_per_app_binding(
        "2b042",
        "com.microsoft.VSCode",
        ButtonId::Back,
        Some(Action::Undo),
    );

    // Global: both buttons are browser nav.
    let global = cfg.effective_bindings("2b042", None);
    assert_eq!(
        global.get(&ButtonId::Back),
        Some(&Binding::Single(Action::BrowserBack))
    );
    assert_eq!(
        global.get(&ButtonId::Forward),
        Some(&Binding::Single(Action::BrowserForward))
    );

    // VSCode: Back overridden (wrapped as Single), Forward inherits.
    let vscode = cfg.effective_bindings("2b042", Some("com.microsoft.VSCode"));
    assert_eq!(
        vscode.get(&ButtonId::Back),
        Some(&Binding::Single(Action::Undo))
    );
    assert_eq!(
        vscode.get(&ButtonId::Forward),
        Some(&Binding::Single(Action::BrowserForward))
    );

    // Unrelated app falls through.
    let other = cfg.effective_bindings("2b042", Some("com.apple.Safari"));
    assert_eq!(
        other.get(&ButtonId::Back),
        Some(&Binding::Single(Action::BrowserBack))
    );
}

#[test]
fn per_app_binding_removal_prunes_empty_app() {
    let mut cfg = Config::default();
    cfg.set_per_app_binding(
        "2b042",
        "com.example.App",
        ButtonId::Back,
        Some(Action::Copy),
    );
    cfg.set_per_app_binding("2b042", "com.example.App", ButtonId::Back, None);
    assert!(
        cfg.devices.get("2b042").expect("entry").per_app_bindings.is_empty(),
        "removing last override should prune the app entry"
    );
}

#[test]
fn app_settings_launch_at_login_roundtrips() {
    let mut cfg = Config::default();
    cfg.app_settings.launch_at_login = true;
    let parsed = write_and_read(&cfg);
    assert!(parsed.app_settings.launch_at_login);
}

#[test]
fn set_gesture_direction_upgrades_single_to_gesture() {
    let mut cfg = Config::default();
    // Start from a Single binding, then bind a swipe direction.
    cfg.set_binding(
        "2b042",
        ButtonId::Back,
        Binding::Single(Action::BrowserBack),
    );
    cfg.set_gesture_direction("2b042", ButtonId::Back, GestureDirection::Up, Action::Copy);

    match cfg.bindings_for("2b042").get(&ButtonId::Back) {
        Some(Binding::Gesture(map)) => {
            // The prior single action is preserved as the Click entry.
            assert_eq!(
                map.get(&GestureDirection::Click),
                Some(&Action::BrowserBack)
            );
            assert_eq!(map.get(&GestureDirection::Up), Some(&Action::Copy));
        }
        other => panic!("expected Gesture after upgrade, got {other:?}"),
    }
}

#[test]
fn set_gesture_direction_on_fresh_gesture_button_seeds_click() {
    // Binding one direction on a never-configured gesture button must still
    // persist a `Click`, so the click projection is the canonical default
    // rather than `Action::None` (which reads as a no-op press).
    let mut cfg = Config::default();
    cfg.set_gesture_direction(
        "2b042",
        ButtonId::GestureButton,
        GestureDirection::Up,
        Action::Copy,
    );

    match cfg.bindings_for("2b042").get(&ButtonId::GestureButton) {
        Some(Binding::Gesture(map)) => {
            assert_eq!(map.get(&GestureDirection::Up), Some(&Action::Copy));
            assert_eq!(
                map.get(&GestureDirection::Click),
                Some(&default_gesture_binding(
                    GestureDirection::Click
                )),
                "a fresh gesture button must seed a Click from its default"
            );
        }
        other => panic!("expected Gesture, got {other:?}"),
    }
}

#[test]
fn gesture_button_defaults_to_hidpp_button_only() {
    let cfg = Config::default();
    // Out of the box (no config), only the dedicated HID++ gesture button is
    // in gesture mode; OS-hook buttons start as single actions.
    assert!(cfg.is_gesture_button("2b042", ButtonId::GestureButton));
    assert!(!cfg.is_gesture_button("2b042", ButtonId::Back));
    assert!(!cfg.is_gesture_button("2b042", ButtonId::Forward));
    assert_eq!(cfg.gesture_buttons("2b042"), vec![ButtonId::GestureButton]);
}

#[test]
fn enable_gesture_supports_multiple_buttons_at_once() {
    let mut cfg = Config::default();
    // Enable two OS-hook buttons alongside the default HID++ gesture button —
    // no single-owner lock, so all three gesture simultaneously.
    cfg.set_binding("2b042", ButtonId::Back, Action::BrowserBack.into());
    cfg.enable_gesture("2b042", ButtonId::Back);
    cfg.enable_gesture("2b042", ButtonId::Forward);

    assert!(cfg.is_gesture_button("2b042", ButtonId::GestureButton));
    assert!(cfg.is_gesture_button("2b042", ButtonId::Back));
    assert!(cfg.is_gesture_button("2b042", ButtonId::Forward));
    assert_eq!(
        cfg.gesture_buttons("2b042"),
        vec![ButtonId::Back, ButtonId::Forward, ButtonId::GestureButton],
        "gesture_buttons returns every gesture button in ButtonId::ALL order"
    );

    let bindings = cfg.bindings_for("2b042");
    // Back is a full five-direction gesture button: its prior single action
    // stays as Click, and the swipe arms are seeded from defaults.
    match bindings.get(&ButtonId::Back) {
        Some(Binding::Gesture(map)) => {
            assert_eq!(
                map.get(&GestureDirection::Click),
                Some(&Action::BrowserBack)
            );
            assert_eq!(
                map.get(&GestureDirection::Up),
                Some(&default_gesture_binding(GestureDirection::Up)),
                "an enabled button gets full default arms"
            );
        }
        other => panic!("expected Back to be a gesture binding, got {other:?}"),
    }
}

#[test]
fn enable_gesture_seeds_a_fresh_button_with_full_directions() {
    let mut cfg = Config::default();
    // The dedicated HID++ gesture button gets the full default direction map.
    cfg.enable_gesture("2b042", ButtonId::GestureButton);
    match cfg.bindings_for("2b042").get(&ButtonId::GestureButton) {
        Some(Binding::Gesture(map)) => {
            for dir in GestureDirection::ALL {
                assert_eq!(map.get(&dir), Some(&default_gesture_binding(dir)));
            }
        }
        other => panic!("expected full default gesture map, got {other:?}"),
    }

    // A fresh OS-hook button also gets all five directions, not just a Click:
    // its native action stays as Click, and the swipe arms are defaults — so
    // the GUI's shown defaults are exactly what the runtime dispatches.
    cfg.enable_gesture("2b042", ButtonId::Forward);
    match cfg.bindings_for("2b042").get(&ButtonId::Forward) {
        Some(Binding::Gesture(map)) => {
            assert_eq!(
                map.get(&GestureDirection::Click),
                Some(&default_binding(ButtonId::Forward))
            );
            for dir in [
                GestureDirection::Up,
                GestureDirection::Down,
                GestureDirection::Left,
                GestureDirection::Right,
            ] {
                assert_eq!(map.get(&dir), Some(&default_gesture_binding(dir)));
            }
        }
        other => panic!("expected full gesture map for Forward, got {other:?}"),
    }
}

#[test]
fn disable_gesture_demotes_only_the_named_button() {
    let mut cfg = Config::default();
    cfg.enable_gesture("2b042", ButtonId::Back);
    cfg.enable_gesture("2b042", ButtonId::Forward);

    // Turning one off leaves the other (and the HID++ default) gesturing.
    cfg.disable_gesture("2b042", ButtonId::Back);
    assert!(!cfg.is_gesture_button("2b042", ButtonId::Back));
    assert!(cfg.is_gesture_button("2b042", ButtonId::Forward));
    assert!(cfg.is_gesture_button("2b042", ButtonId::GestureButton));

    // Back is now a plain single action (its former Click), not a gesture.
    assert!(matches!(
        cfg.bindings_for("2b042").get(&ButtonId::Back),
        Some(Binding::Single(_))
    ));
}

#[test]
fn disable_gesture_can_turn_off_the_default_hidpp_button() {
    let mut cfg = Config::default();
    // The HID++ gesture button is on by default with no stored entry; turning
    // it off must store an explicit Single that overrides that default.
    assert!(cfg.is_gesture_button("2b042", ButtonId::GestureButton));
    cfg.disable_gesture("2b042", ButtonId::GestureButton);
    assert!(!cfg.is_gesture_button("2b042", ButtonId::GestureButton));
    assert!(cfg.gesture_buttons("2b042").is_empty());

    // The explicit demotion survives a save/load round-trip.
    let parsed = write_and_read(&cfg);
    assert!(!parsed.is_gesture_button("2b042", ButtonId::GestureButton));
}

#[test]
fn gesture_mode_roundtrips_via_bindings() {
    let mut cfg = Config::default();
    cfg.set_binding("2b042", ButtonId::Back, Action::BrowserBack.into());
    cfg.enable_gesture("2b042", ButtonId::Back);
    let parsed = write_and_read(&cfg);
    assert!(parsed.is_gesture_button("2b042", ButtonId::Back));
    assert_eq!(
        parsed.gesture_buttons("2b042"),
        vec![ButtonId::Back, ButtonId::GestureButton]
    );
}


#[test]
fn native_scroll_direction_is_what_a_silent_record_means() {
    // The native direction reads as "not inverted", which is what a record that
    // does not say reads as.
    let mut cfg = Config::default();
    cfg.set_binding("2b042", ButtonId::Back, Binding::Single(Action::Copy));
    cfg.set_invert_scroll("2b042", false);
    let saved = cfg.to_document();
    let record = saved.devices.get("2b042").expect("record");
    assert!(is_false(&record.invert_scroll));
}

#[test]
fn cleared_presets_are_empty_in_the_document() {
    let mut cfg = Config::default();
    cfg.set_binding("2b042", ButtonId::Back, Binding::Single(Action::Copy));
    cfg.set_dpi_presets("2b042", vec![800]);
    cfg.set_dpi_presets("2b042", vec![]); // clear
    let saved = cfg.to_document();
    assert!(saved.devices.get("2b042").expect("record").dpi_presets.is_empty());
}

#[test]
fn default_settings_are_left_out_of_the_document() {
    let cfg = Config::default();
    assert!(cfg.app_settings.is_default());
    assert!(cfg.to_document().app_settings.is_none());
}

#[test]
fn cleared_selection_is_left_out_of_the_document() {
    let mut cfg = Config::default();
    cfg.set_selected_device(Some("2b042".into()));
    cfg.set_selected_device(None);
    assert!(cfg.to_document().selected_device.is_none());
}

#[test]
fn the_current_shape_wins_over_older_fields() {
    let mut bindings = OrderedMap::new();
    bindings.insert(ButtonId::Back, Binding::Single(Action::Undo));
    bindings.insert(ButtonId::GestureButton, Binding::Single(Action::Redo));
    let record = RawDeviceConfig {
        bindings,
        button_bindings: singles(&[
            (ButtonId::Back, Action::Copy),
            (ButtonId::Forward, Action::Paste),
        ]),
        gesture_bindings: directions(&[(GestureDirection::Up, Action::Copy)]),
        ..empty_record()
    };
    let device = DeviceConfig::from(record);
    assert_eq!(
        device.bindings.get(&ButtonId::Back),
        Some(&Binding::Single(Action::Undo))
    );
    assert_eq!(
        device.bindings.get(&ButtonId::Forward),
        Some(&Binding::Single(Action::Paste))
    );
    assert_eq!(
        device.bindings.get(&ButtonId::GestureButton),
        Some(&Binding::Single(Action::Redo))
    );
    assert_eq!(device.bindings.len(), 3);
}

#[test]
fn brightness_is_brought_within_bounds_on_loading() {
    for (stored, expected) in [(0, 0), (99, 99), (100, 100), (101, 100), (255, 100)] {
        let mut cfg = Config::default();
        cfg.set_lighting(
            "g513",
            Lighting { brightness: stored, ..Lighting::default() },
        );
        assert_eq!(cfg.lighting("g513").expect("lighting").brightness, stored);
        let back = write_and_read(&cfg).lighting("g513").expect("lighting");
        assert_eq!(back, Lighting { brightness: expected, ..Lighting::default() });
        assert_eq!(clamp_brightness(stored), expected);
    }
}

#[test]
fn what_a_file_does_not_say_has_a_default() {
    assert_eq!(
        Lighting::default(),
        Lighting { enabled: true, color: "ffffff".to_string(), brightness: 100 }
    );
    assert!(default_lighting_enabled());
    assert_eq!(default_lighting_color(), "ffffff");
    assert_eq!(default_lighting_brightness(), 100);
    assert!(default_true());
    assert_eq!(default_thumbwheel_sensitivity(), 14);
    assert!(is_false(&false));
    assert!(!is_false(&true));
    let settings = AppSettings::default();
    assert!(settings.show_in_menu_bar);
    assert!(settings.auto_download_assets);
    assert!(!settings.launch_at_login);
    assert_eq!(settings.thumbwheel_sensitivity, 14);
    assert_eq!(settings.appearance, Appearance::System);
    let read = Config::from_document(Some(bare_document(3))).expect("load");
    assert_eq!(read.app_settings, settings);
}

#[test]
fn any_changed_preference_is_kept() {
    let mut changed = AppSettings::default();
    changed.theme_dark = Some("night".to_string());
    assert!(!changed.is_default());
    let mut cfg = Config::default();
    cfg.app_settings = changed.clone();
    assert_eq!(write_and_read(&cfg).app_settings, changed);
    let mut sensitive = AppSettings::default();
    sensitive.thumbwheel_sensitivity = 15;
    assert!(!sensitive.is_default());
}

#[test]
fn an_override_is_scoped_to_its_app_and_button() {
    let mut cfg = Config::default();
    cfg.set_binding("2b042", ButtonId::Back, Action::BrowserBack.into());
    assert!(!cfg.has_app_override("2b042", "com.example.App"));
    cfg.set_per_app_binding("2b042", "com.example.App", ButtonId::Back, Some(Action::Undo));
    cfg.set_per_app_binding("2b042", "com.example.App", ButtonId::Forward, Some(Action::Redo));
    assert!(cfg.has_app_override("2b042", "com.example.App"));
    assert!(!cfg.has_app_override("2b042", "com.other.App"));
    assert!(!cfg.has_app_override("4082d", "com.example.App"));
    cfg.set_per_app_binding("2b042", "com.example.App", ButtonId::Back, None);
    let effective = cfg.effective_bindings("2b042", Some("com.example.App"));
    assert_eq!(
        effective.get(&ButtonId::Back),
        Some(&Binding::Single(Action::BrowserBack))
    );
    assert_eq!(
        effective.get(&ButtonId::Forward),
        Some(&Binding::Single(Action::Redo))
    );
    assert!(cfg.effective_bindings("4082d", Some("com.example.App")).is_empty());
    // Removing what is not there leaves no empty entry behind.
    cfg.set_per_app_binding("4082d", "com.example.App", ButtonId::Back, None);
    assert!(cfg.devices.get("4082d").expect("entry").per_app_bindings.is_empty());
}

#[test]
fn turning_gestures_on_and_off_gives_the_action_back() {
    let mut cfg = Config::default();
    cfg.set_binding("2b042", ButtonId::Back, Action::Find.into());
    cfg.enable_gesture("2b042", ButtonId::Back);
    let once = cfg.clone();
    cfg.enable_gesture("2b042", ButtonId::Back);
    assert_eq!(cfg.bindings_for("2b042"), once.bindings_for("2b042"));
    cfg.disable_gesture("2b042", ButtonId::Back);
    assert_eq!(
        cfg.bindings_for("2b042").get(&ButtonId::Back),
        Some(&Binding::Single(Action::Find))
    );
    assert_eq!(cfg.bindings_for("2b042").len(), 1);
    // A button that is not in gesture mode is left alone.
    cfg.disable_gesture("2b042", ButtonId::Forward);
    assert_eq!(cfg.bindings_for("2b042").len(), 1);
}

#[test]
fn gesture_directions_are_read_from_what_is_stored() {
    let mut cfg = Config::default();
    assert!(cfg.gesture_bindings_for("2b042").is_empty());
    cfg.set_gesture_direction(
        "2b042",
        ButtonId::GestureButton,
        GestureDirection::Left,
        Action::Undo,
    );
    let stored = cfg.gesture_bindings_for("2b042");
    assert_eq!(stored.len(), 5);
    assert_eq!(stored.get(&GestureDirection::Left), Some(&Action::Undo));
    cfg.disable_gesture("2b042", ButtonId::GestureButton);
    assert!(cfg.gesture_bindings_for("2b042").is_empty());
}

#[test]
fn identities_come_by_ascending_key() {
    let identity = |name: &str| DeviceIdentity {
        display_name: name.to_string(),
        model_info: None,
        codename: None,
        kind: DeviceKind::Mouse,
        capabilities: Capabilities {
            buttons: true,
            pointer: true,
            lighting: false,
            scroll_inversion: false,
        },
    };
    let mut cfg = Config::default();
    cfg.set_device_identity("c", identity("third"));
    cfg.set_device_identity("a", identity("first"));
    cfg.set_dpi("b", 800);
    let known: Vec<(&str, &str)> = cfg
        .known_identities()
        .into_iter()
        .map(|(key, identity)| (key, identity.display_name.as_str()))
        .collect();
    assert_eq!(known, vec![("a", "first"), ("c", "third")]);
}

#[test]
fn a_reload_changes_nothing() {
    let record = RawDeviceConfig {
        button_bindings: singles(&[(ButtonId::Back, Action::BrowserBack)]),
        gesture_bindings: directions(&[(GestureDirection::Up, Action::Copy)]),
        dpi_presets: vec![400, 800],
        dpi: Some(800),
        invert_scroll: true,
        ..empty_record()
    };
    let cfg = Config::from_document(Some(document(2, "2b042", record))).expect("load");
    let again = write_and_read(&cfg);
    assert_eq!(again.bindings_for("2b042"), cfg.bindings_for("2b042"));
    assert_eq!(again.dpi_presets("2b042"), vec![400, 800]);
    assert_eq!(again.dpi("2b042"), Some(800));
    assert!(again.invert_scroll("2b042"));
    assert_eq!(again.schema_version, SCHEMA_VERSION);
}
