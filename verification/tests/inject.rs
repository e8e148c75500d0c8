use evdev::{EventType, KeyCode, RelativeAxisCode};
use openlogi::binding::Action;
use openlogi::chord::KeyCombo;
use openlogi::inject::keys::{
    EV_KEY, EV_REL, EV_SYN, KEY_CAPABILITIES, REL_HWHEEL, REL_WHEEL,
};
use openlogi::inject::linux::{
    execute_linux, list_names, lock_screen, lock_screen_answered, macos_vk_to_linux,
    modifiers_to_keycodes, mpris_command, InputEvent, LinuxStep, LockStep, MediaCommand, MprisStep,
};
use openlogi::inject::macos::{
    execute_macos, post_symbolic_hotkey, HotkeyStep, MacStep, ScrollUnit,
};
use openlogi::inject::windows::{
    execute_windows, key_input, mac_virtual_key_to_windows, Stroke, WindowsStep,
};
use openlogi::inject::{linux, macos, windows, Skipped, SYNTHETIC_EVENT_USER_DATA};
use windows_sys::Win32::UI::Input::KeyboardAndMouse as km;

/// The code that the kernel has for a key.
fn key(code: Option<KeyCode>) -> Option<u16> {
    code.map(|k| k.0)
}

/// The codes that the kernel has for some keys.
fn keys(codes: Vec<KeyCode>) -> Vec<u16> {
    codes.into_iter().map(|k| k.0).collect()
}

#[test]
fn custom_shortcut_keycodes_map_across_categories() {
    // One representative per category, checked against independently-known
    // (kVK → Win32 VK) facts, so a systematic error (swapped digits,
    // off-by-one F-keys, a wrong OEM code) is caught without restating the
    // whole table.
    assert_eq!(mac_virtual_key_to_windows(0x00), Some(0x41)); // A → VK_A
    assert_eq!(mac_virtual_key_to_windows(0x12), Some(0x31)); // 1 → VK_1
    assert_eq!(mac_virtual_key_to_windows(0x7A), Some(0x70)); // F1 → VK_F1
    assert_eq!(mac_virtual_key_to_windows(0x7B), Some(0x25)); // LeftArrow → VK_LEFT
    assert_eq!(mac_virtual_key_to_windows(0x31), Some(0x20)); // Space → VK_SPACE
    assert_eq!(mac_virtual_key_to_windows(0x29), Some(0xBA)); // ; → VK_OEM_1
    assert_eq!(mac_virtual_key_to_windows(0x37), None); // Command is a modifier, not a key
}

#[test]
fn mod_cmd_alone_maps_to_ctrl() {
    assert_eq!(
        modifiers_to_keycodes(KeyCombo::MOD_CMD),
        keys(vec![KeyCode::KEY_LEFTCTRL])
    );
}

#[test]
fn mod_ctrl_alone_maps_to_ctrl() {
    assert_eq!(
        modifiers_to_keycodes(KeyCombo::MOD_CTRL),
        keys(vec![KeyCode::KEY_LEFTCTRL])
    );
}

#[test]
fn mod_cmd_and_ctrl_together_produce_single_ctrl() {
    // Both bits set must not push KEY_LEFTCTRL twice.
    assert_eq!(
        modifiers_to_keycodes(KeyCombo::MOD_CMD | KeyCombo::MOD_CTRL),
        keys(vec![KeyCode::KEY_LEFTCTRL])
    );
}

#[test]
fn all_modifiers_produce_canonical_order() {
    let mods = modifiers_to_keycodes(
        KeyCombo::MOD_CMD | KeyCombo::MOD_SHIFT | KeyCombo::MOD_OPTION,
    );
    assert_eq!(
        mods,
        keys(vec![KeyCode::KEY_LEFTCTRL, KeyCode::KEY_LEFTSHIFT, KeyCode::KEY_LEFTALT])
    );
}

#[test]
fn no_modifiers_produces_empty_vec() {
    assert!(modifiers_to_keycodes(0).is_empty());
}

#[test]
fn common_letters_map_correctly() {
    assert_eq!(macos_vk_to_linux(0x08), key(Some(KeyCode::KEY_C))); // kVK_ANSI_C
    assert_eq!(macos_vk_to_linux(0x09), key(Some(KeyCode::KEY_V))); // kVK_ANSI_V
    assert_eq!(macos_vk_to_linux(0x07), key(Some(KeyCode::KEY_X))); // kVK_ANSI_X
    assert_eq!(macos_vk_to_linux(0x00), key(Some(KeyCode::KEY_A))); // kVK_ANSI_A
    assert_eq!(macos_vk_to_linux(0x06), key(Some(KeyCode::KEY_Z))); // kVK_ANSI_Z
    assert_eq!(macos_vk_to_linux(0x0D), key(Some(KeyCode::KEY_W))); // kVK_ANSI_W
}

#[test]
fn digits_map_correctly() {
    assert_eq!(macos_vk_to_linux(0x12), key(Some(KeyCode::KEY_1))); // kVK_ANSI_1
    assert_eq!(macos_vk_to_linux(0x1D), key(Some(KeyCode::KEY_0))); // kVK_ANSI_0
}

#[test]
fn arrow_keys_map_correctly() {
    assert_eq!(macos_vk_to_linux(0x7B), key(Some(KeyCode::KEY_LEFT)));
    assert_eq!(macos_vk_to_linux(0x7C), key(Some(KeyCode::KEY_RIGHT)));
    assert_eq!(macos_vk_to_linux(0x7D), key(Some(KeyCode::KEY_DOWN)));
    assert_eq!(macos_vk_to_linux(0x7E), key(Some(KeyCode::KEY_UP)));
}

#[test]
fn function_keys_map_correctly() {
    assert_eq!(macos_vk_to_linux(0x7A), key(Some(KeyCode::KEY_F1))); // kVK_F1
    assert_eq!(macos_vk_to_linux(0x78), key(Some(KeyCode::KEY_F2))); // kVK_F2
    assert_eq!(macos_vk_to_linux(0x76), key(Some(KeyCode::KEY_F4))); // kVK_F4
    assert_eq!(macos_vk_to_linux(0x60), key(Some(KeyCode::KEY_F5))); // kVK_F5
    assert_eq!(macos_vk_to_linux(0x6F), key(Some(KeyCode::KEY_F12))); // kVK_F12
}

#[test]
fn nav_keys_map_correctly() {
    assert_eq!(macos_vk_to_linux(0x73), key(Some(KeyCode::KEY_HOME)));
    assert_eq!(macos_vk_to_linux(0x77), key(Some(KeyCode::KEY_END)));
    assert_eq!(macos_vk_to_linux(0x74), key(Some(KeyCode::KEY_PAGEUP)));
    assert_eq!(macos_vk_to_linux(0x79), key(Some(KeyCode::KEY_PAGEDOWN)));
    assert_eq!(macos_vk_to_linux(0x75), key(Some(KeyCode::KEY_DELETE)));
}

#[test]
fn brackets_follow_ansi_layout() {
    // kVK_ANSI_LeftBracket=0x21 → KEY_LEFTBRACE, RightBracket=0x1E → KEY_RIGHTBRACE
    assert_eq!(macos_vk_to_linux(0x21), key(Some(KeyCode::KEY_LEFTBRACE)));
    assert_eq!(macos_vk_to_linux(0x1E), key(Some(KeyCode::KEY_RIGHTBRACE)));
}

#[test]
fn unmapped_code_returns_none() {
    assert_eq!(macos_vk_to_linux(0xFF), None);
    assert_eq!(macos_vk_to_linux(0x34), None); // gap in the kVK table
}

#[test]
fn codes_are_those_of_the_kernel() {
    let named: Vec<u16> = keys(vec![
        KeyCode::KEY_A,
        KeyCode::KEY_B,
        KeyCode::KEY_C,
        KeyCode::KEY_D,
        KeyCode::KEY_E,
        KeyCode::KEY_F,
        KeyCode::KEY_G,
        KeyCode::KEY_H,
        KeyCode::KEY_I,
        KeyCode::KEY_J,
        KeyCode::KEY_K,
        KeyCode::KEY_L,
        KeyCode::KEY_M,
        KeyCode::KEY_N,
        KeyCode::KEY_O,
        KeyCode::KEY_P,
        KeyCode::KEY_Q,
        KeyCode::KEY_R,
        KeyCode::KEY_S,
        KeyCode::KEY_T,
        KeyCode::KEY_U,
        KeyCode::KEY_V,
        KeyCode::KEY_W,
        KeyCode::KEY_X,
        KeyCode::KEY_Y,
        KeyCode::KEY_Z,
        KeyCode::KEY_0,
        KeyCode::KEY_1,
        KeyCode::KEY_2,
        KeyCode::KEY_3,
        KeyCode::KEY_4,
        KeyCode::KEY_5,
        KeyCode::KEY_6,
        KeyCode::KEY_7,
        KeyCode::KEY_8,
        KeyCode::KEY_9,
        KeyCode::KEY_MINUS,
        KeyCode::KEY_EQUAL,
        KeyCode::KEY_LEFTBRACE,
        KeyCode::KEY_RIGHTBRACE,
        KeyCode::KEY_BACKSLASH,
        KeyCode::KEY_SEMICOLON,
        KeyCode::KEY_APOSTROPHE,
        KeyCode::KEY_GRAVE,
        KeyCode::KEY_COMMA,
        KeyCode::KEY_DOT,
        KeyCode::KEY_SLASH,
        KeyCode::KEY_LEFT,
        KeyCode::KEY_RIGHT,
        KeyCode::KEY_UP,
        KeyCode::KEY_DOWN,
        KeyCode::KEY_HOME,
        KeyCode::KEY_END,
        KeyCode::KEY_PAGEUP,
        KeyCode::KEY_PAGEDOWN,
        KeyCode::KEY_TAB,
        KeyCode::KEY_ENTER,
        KeyCode::KEY_BACKSPACE,
        KeyCode::KEY_DELETE,
        KeyCode::KEY_ESC,
        KeyCode::KEY_SPACE,
        KeyCode::KEY_LEFTCTRL,
        KeyCode::KEY_LEFTSHIFT,
        KeyCode::KEY_LEFTALT,
        KeyCode::KEY_LEFTMETA,
        KeyCode::KEY_F1,
        KeyCode::KEY_F2,
        KeyCode::KEY_F3,
        KeyCode::KEY_F4,
        KeyCode::KEY_F5,
        KeyCode::KEY_F6,
        KeyCode::KEY_F7,
        KeyCode::KEY_F8,
        KeyCode::KEY_F9,
        KeyCode::KEY_F10,
        KeyCode::KEY_F11,
        KeyCode::KEY_F12,
        KeyCode::KEY_SYSRQ,
        KeyCode::KEY_PLAYPAUSE,
        KeyCode::KEY_NEXTSONG,
        KeyCode::KEY_PREVIOUSSONG,
        KeyCode::KEY_VOLUMEUP,
        KeyCode::KEY_VOLUMEDOWN,
        KeyCode::KEY_MUTE,
        KeyCode::BTN_LEFT,
        KeyCode::BTN_RIGHT,
        KeyCode::BTN_MIDDLE,
        KeyCode::BTN_SIDE,
        KeyCode::BTN_EXTRA,
    ]);
    assert_eq!(KEY_CAPABILITIES.to_vec(), named);
    assert_eq!(EV_SYN, EventType::SYNCHRONIZATION.0);
    assert_eq!(EV_KEY, EventType::KEY.0);
    assert_eq!(EV_REL, EventType::RELATIVE.0);
    assert_eq!(REL_WHEEL, RelativeAxisCode::REL_WHEEL.0);
    assert_eq!(REL_HWHEEL, RelativeAxisCode::REL_HWHEEL.0);
}

fn events(frames: Vec<Vec<InputEvent>>) -> Vec<Vec<(u16, u16, i32)>> {
    frames
        .into_iter()
        .map(|frame| frame.into_iter().map(|e| (e.kind, e.code, e.value)).collect())
        .collect()
}

fn emitted(action: &Action) -> Vec<Vec<(u16, u16, i32)>> {
    match execute_linux(action) {
        LinuxStep::Emit(frames) => events(frames),
        other => panic!("expected frames, got {other:?}"),
    }
}

const SYN: (u16, u16, i32) = (0, 0, 0);

#[test]
fn a_press_goes_down_and_comes_up_in_two_frames() {
    let ctrl = KeyCode::KEY_LEFTCTRL.0;
    let shift = KeyCode::KEY_LEFTSHIFT.0;
    let z = KeyCode::KEY_Z.0;
    assert_eq!(
        emitted(&Action::Redo),
        vec![
            vec![(1, ctrl, 1), (1, shift, 1), (1, z, 1), SYN],
            vec![(1, z, 0), (1, shift, 0), (1, ctrl, 0), SYN],
        ]
    );
    assert_eq!(
        emitted(&Action::VolumeUp),
        vec![
            vec![(1, KeyCode::KEY_VOLUMEUP.0, 1), SYN],
            vec![(1, KeyCode::KEY_VOLUMEUP.0, 0), SYN],
        ]
    );
}

#[test]
fn clicks_and_wheels_on_linux() {
    let side = KeyCode::BTN_SIDE.0;
    assert_eq!(
        emitted(&Action::MouseBack),
        vec![vec![(1, side, 1), SYN], vec![(1, side, 0), SYN]]
    );
    assert_eq!(emitted(&Action::ScrollUp), vec![vec![(2, 8, 3), SYN]]);
    assert_eq!(emitted(&Action::ScrollDown), vec![vec![(2, 8, -3), SYN]]);
    assert_eq!(emitted(&Action::HorizontalScrollLeft), vec![vec![(2, 6, -3), SYN]]);
    assert_eq!(
        events(linux::post_horizontal_scroll(-7)),
        vec![vec![(2, 6, -7), SYN]]
    );
}

#[test]
fn a_shortcut_on_linux_holds_its_modifiers() {
    let combo = KeyCombo::parse_typed("Win+Ctrl+Alt+F5").expect("parse");
    let ctrl = KeyCode::KEY_LEFTCTRL.0;
    let alt = KeyCode::KEY_LEFTALT.0;
    let f5 = KeyCode::KEY_F5.0;
    assert_eq!(
        emitted(&Action::CustomShortcut(combo)),
        vec![
            vec![(1, ctrl, 1), (1, alt, 1), (1, f5, 1), SYN],
            vec![(1, f5, 0), (1, alt, 0), (1, ctrl, 0), SYN],
        ]
    );
}

fn shortcut(key_code: u16) -> Action {
    Action::CustomShortcut(KeyCombo { modifiers: KeyCombo::MOD_CMD, key_code, display: String::new() })
}

#[test]
fn what_is_skipped_has_a_reason() {
    let linux_reason = |action: &Action| match execute_linux(action) {
        LinuxStep::Skip(why) => why,
        other => panic!("expected a skip, got {other:?}"),
    };
    assert_eq!(linux_reason(&Action::DoNothing), Skipped::Suppressed);
    assert_eq!(linux_reason(&Action::SetDpiPreset(1)), Skipped::DeviceSide);
    assert_eq!(linux_reason(&Action::MissionControl), Skipped::NoEquivalent);
    assert_eq!(linux_reason(&shortcut(0)), Skipped::NoKeyCode);
    assert_eq!(linux_reason(&shortcut(0x34)), Skipped::Unmapped(0x34));

    let windows_reason = |action: &Action| match execute_windows(action) {
        WindowsStep::Skip(why) => why,
        other => panic!("expected a skip, got {other:?}"),
    };
    assert_eq!(windows_reason(&Action::DoNothing), Skipped::Suppressed);
    assert_eq!(windows_reason(&Action::ToggleSmartShift), Skipped::DeviceSide);
    assert_eq!(windows_reason(&shortcut(0)), Skipped::NoKeyCode);
    assert_eq!(windows_reason(&shortcut(0x37)), Skipped::Unmapped(0x37));

    let mac_reason = |action: &Action| match execute_macos(action) {
        MacStep::Skip(why) => why,
        other => panic!("expected a skip, got {other:?}"),
    };
    assert_eq!(mac_reason(&Action::DoNothing), Skipped::Suppressed);
    assert_eq!(mac_reason(&Action::CycleDpiPresets), Skipped::DeviceSide);
    assert_eq!(mac_reason(&shortcut(0)), Skipped::NoKeyCode);
}

#[test]
fn every_typed_key_but_one_can_be_pressed() {
    for name in ["b", "9", "tab", "space", "enter", "esc", "backspace", "delete", "up", "home", "f12"] {
        let combo = KeyCombo::parse_typed(name).expect("parse");
        let action = Action::CustomShortcut(combo);
        assert!(matches!(execute_linux(&action), LinuxStep::Emit(_)), "{name}");
        assert!(matches!(execute_windows(&action), WindowsStep::Keys(_)), "{name}");
        assert!(matches!(execute_macos(&action), MacStep::Keys(_)), "{name}");
    }
    // The key whose code is zero is taken for no key.
    let a = Action::CustomShortcut(KeyCombo::parse_typed("ctrl+a").expect("parse"));
    assert!(matches!(execute_linux(&a), LinuxStep::Skip(Skipped::NoKeyCode)));
    assert!(matches!(execute_windows(&a), WindowsStep::Skip(Skipped::NoKeyCode)));
}

#[test]
fn no_two_keys_become_one() {
    let mut linux_keys = Vec::new();
    let mut windows_keys = Vec::new();
    for code in 0..=u16::MAX {
        if let Some(key) = macos_vk_to_linux(code) {
            assert!(KEY_CAPABILITIES.contains(&key));
            assert!(!linux_keys.contains(&key));
            assert!(mac_virtual_key_to_windows(code).is_some());
            linux_keys.push(key);
        }
        if let Some(key) = mac_virtual_key_to_windows(code) {
            assert!(!windows_keys.contains(&key));
            windows_keys.push(key);
        }
    }
    assert_eq!(linux_keys.len(), 73);
    assert_eq!(windows_keys.len(), 81);
}

#[test]
fn the_screen_is_locked_by_logind_or_by_keys() {
    let meta = KeyCode::KEY_LEFTMETA.0;
    let l = KeyCode::KEY_L.0;
    let keys_of_lock = vec![
        vec![(1, meta, 1), (1, l, 1), SYN],
        vec![(1, l, 0), (1, meta, 0), SYN],
    ];
    match lock_screen(true, Some("c2")) {
        LockStep::Call(call) => {
            assert_eq!(call.destination, "org.freedesktop.login1");
            assert_eq!(call.path, "/org/freedesktop/login1");
            assert_eq!(call.interface, "org.freedesktop.login1.Manager");
            assert_eq!(call.member, "LockSession");
            assert_eq!(call.argument.as_deref(), Some("c2"));
        }
        other => panic!("expected a call, got {other:?}"),
    }
    for step in [lock_screen(false, Some("c2")), lock_screen(true, None), lock_screen(false, None)] {
        match step {
            LockStep::Emit(frames) => assert_eq!(events(frames), keys_of_lock),
            other => panic!("expected keys, got {other:?}"),
        }
    }
    assert!(lock_screen_answered(true).is_none());
    assert_eq!(events(lock_screen_answered(false).expect("keys")), keys_of_lock);
}

#[test]
fn the_first_player_is_commanded() {
    let names: Vec<String> = [
        "org.freedesktop.DBus",
        "org.mpris.MediaPlayer2",
        "org.mpris.MediaPlayer2.vlc",
        "org.mpris.MediaPlayer2.firefox",
    ]
    .iter()
    .map(|n| n.to_string())
    .collect();
    match mpris_command(MediaCommand::Next, Some(&names)) {
        MprisStep::Call(call) => {
            assert_eq!(call.destination, "org.mpris.MediaPlayer2.vlc");
            assert_eq!(call.path, "/org/mpris/MediaPlayer2");
            assert_eq!(call.interface, "org.mpris.MediaPlayer2.Player");
            assert_eq!(call.member, "Next");
            assert_eq!(call.argument, None);
        }
        other => panic!("expected a call, got {other:?}"),
    }
    let no_player: Vec<String> = vec!["org.mpris.MediaPlayer2".to_string()];
    let no_names: Vec<String> = Vec::new();
    for found in [None, Some(&no_names), Some(&no_player)] {
        match mpris_command(MediaCommand::PlayPause, found) {
            MprisStep::Emit(frames) => assert_eq!(
                events(frames),
                vec![
                    vec![(1, KeyCode::KEY_PLAYPAUSE.0, 1), SYN],
                    vec![(1, KeyCode::KEY_PLAYPAUSE.0, 0), SYN],
                ]
            ),
            other => panic!("expected keys, got {other:?}"),
        }
    }
    assert!(matches!(
        execute_linux(&Action::PrevTrack),
        LinuxStep::Media(MediaCommand::Previous)
    ));
    assert_eq!(list_names().member, "ListNames");
    assert_eq!(MediaCommand::Previous.method(), "Previous");
}

#[test]
fn flags_are_those_of_windows() {
    assert_eq!(windows::KEYEVENTF_EXTENDEDKEY, km::KEYEVENTF_EXTENDEDKEY);
    assert_eq!(windows::KEYEVENTF_KEYUP, km::KEYEVENTF_KEYUP);
    assert_eq!(windows::KEYEVENTF_SCANCODE, km::KEYEVENTF_SCANCODE);
    assert_eq!(windows::MOUSEEVENTF_LEFTDOWN, km::MOUSEEVENTF_LEFTDOWN);
    assert_eq!(windows::MOUSEEVENTF_LEFTUP, km::MOUSEEVENTF_LEFTUP);
    assert_eq!(windows::MOUSEEVENTF_RIGHTDOWN, km::MOUSEEVENTF_RIGHTDOWN);
    assert_eq!(windows::MOUSEEVENTF_RIGHTUP, km::MOUSEEVENTF_RIGHTUP);
    assert_eq!(windows::MOUSEEVENTF_MIDDLEDOWN, km::MOUSEEVENTF_MIDDLEDOWN);
    assert_eq!(windows::MOUSEEVENTF_MIDDLEUP, km::MOUSEEVENTF_MIDDLEUP);
    assert_eq!(windows::MOUSEEVENTF_XDOWN, km::MOUSEEVENTF_XDOWN);
    assert_eq!(windows::MOUSEEVENTF_XUP, km::MOUSEEVENTF_XUP);
    assert_eq!(windows::MOUSEEVENTF_WHEEL, km::MOUSEEVENTF_WHEEL);
    assert_eq!(windows::MOUSEEVENTF_HWHEEL, km::MOUSEEVENTF_HWHEEL);
    assert_eq!(windows::VK_LWIN, km::VK_LWIN);
    assert_eq!(windows::VK_LCONTROL, km::VK_LCONTROL);
    assert_eq!(windows::VK_LSHIFT, km::VK_LSHIFT);
    assert_eq!(windows::VK_LMENU, km::VK_LMENU);
    assert_eq!(windows::VK_MEDIA_PLAY_PAUSE, km::VK_MEDIA_PLAY_PAUSE);
    assert_eq!(windows::VK_BROWSER_BACK, km::VK_BROWSER_BACK);
}

#[test]
fn strokes_on_windows_are_released_backwards() {
    let strokes = |action: &Action| match execute_windows(action) {
        WindowsStep::Keys(keys) => keys.into_iter().map(|s| (s.vk, s.up)).collect::<Vec<_>>(),
        other => panic!("expected strokes, got {other:?}"),
    };
    assert_eq!(
        strokes(&Action::CaptureRegion),
        vec![
            (0x5B, false),
            (0x10, false),
            (0x53, false),
            (0x53, true),
            (0x10, true),
            (0x5B, true),
        ]
    );
    let combo = KeyCombo::parse_typed("ctrl+alt+shift+g").expect("parse");
    assert_eq!(
        strokes(&Action::CustomShortcut(combo)),
        vec![
            (0xA2, false),
            (0xA0, false),
            (0xA4, false),
            (0x47, false),
            (0x47, true),
            (0xA4, true),
            (0xA0, true),
            (0xA2, true),
        ]
    );
}

#[test]
fn keys_on_windows_go_by_scan_code_where_they_have_one() {
    let record = |vk: u16, up: bool, scan: u16| {
        let r = key_input(Stroke { vk, up }, scan);
        (r.vk, r.scan, r.flags)
    };
    assert_eq!(record(0x41, false, 0x1E), (0, 0x1E, 8));
    assert_eq!(record(0x41, true, 0x1E), (0, 0x1E, 10));
    assert_eq!(record(0x25, false, 0x4B), (0, 0x4B, 9));
    assert_eq!(record(0x2E, true, 0x53), (0, 0x53, 11));
    assert_eq!(record(0xAF, false, 0), (0xAF, 0, 0));
    assert_eq!(record(0x25, true, 0), (0x25, 0, 2));
}

#[test]
fn mouse_records_on_windows() {
    let records = |inputs: Vec<windows::MouseInput>| {
        inputs.into_iter().map(|i| (i.flags, i.data as i32)).collect::<Vec<_>>()
    };
    let mouse = |action: &Action| match execute_windows(action) {
        WindowsStep::Mouse(inputs) => records(inputs),
        other => panic!("expected mouse records, got {other:?}"),
    };
    assert_eq!(mouse(&Action::LeftClick), vec![(2, 0), (4, 0)]);
    assert_eq!(mouse(&Action::MouseForward), vec![(0x80, 2), (0x100, 2)]);
    assert_eq!(mouse(&Action::ScrollDown), vec![(0x800, -120)]);
    assert_eq!(mouse(&Action::HorizontalScrollRight), vec![(0x1000, 120)]);
    assert_eq!(records(windows::post_scroll(&Action::Copy)), vec![]);
    assert_eq!(records(windows::post_horizontal_scroll(0)), vec![]);
    assert_eq!(records(windows::post_horizontal_scroll(-3)), vec![(0x1000, -360)]);
    assert_eq!(
        records(windows::post_horizontal_scroll(i32::MAX)),
        vec![(0x1000, i32::MAX)]
    );
    assert_eq!(
        records(windows::post_horizontal_scroll(i32::MIN)),
        vec![(0x1000, i32::MIN)]
    );
}

#[test]
fn flags_are_the_modifier_masks_of_quartz() {
    assert_eq!(macos::FLAG_SHIFT, 0x0002_0000);
    assert_eq!(macos::FLAG_CONTROL, 0x0004_0000);
    assert_eq!(macos::FLAG_ALTERNATE, 0x0008_0000);
    assert_eq!(macos::FLAG_COMMAND, 0x0010_0000);
}

#[test]
fn keys_on_macos_hold_their_flags() {
    let pressed = |action: &Action| match execute_macos(action) {
        MacStep::Keys(events) => {
            events.into_iter().map(|e| (e.code, e.down, e.flags)).collect::<Vec<_>>()
        }
        other => panic!("expected keys, got {other:?}"),
    };
    let region = macos::FLAG_COMMAND | macos::FLAG_SHIFT | macos::FLAG_CONTROL;
    assert_eq!(
        pressed(&Action::CaptureRegion),
        vec![(0x15, true, region), (0x15, false, region)]
    );
    let combo = KeyCombo::parse_typed("win+alt+f1").expect("parse");
    let held = macos::FLAG_COMMAND | macos::FLAG_ALTERNATE;
    assert_eq!(
        pressed(&Action::CustomShortcut(combo)),
        vec![(0x7A, true, held), (0x7A, false, held)]
    );
}

#[test]
fn mouse_events_on_macos_are_stamped() {
    for (action, number) in [
        (Action::LeftClick, None),
        (Action::MiddleClick, None),
        (Action::MouseBack, Some(3)),
        (Action::MouseForward, Some(4)),
    ] {
        match execute_macos(&action) {
            MacStep::Mouse(events) => {
                assert_eq!(events.len(), 2);
                for event in events {
                    assert_eq!(event.user_data, 0x4F4C_4749);
                    assert_eq!(event.number, number);
                }
            }
            other => panic!("expected mouse events, got {other:?}"),
        }
    }
    match execute_macos(&Action::HorizontalScrollLeft) {
        MacStep::Scroll(event) => {
            assert_eq!((event.vertical, event.horizontal), (0, -3));
            assert_eq!(event.unit, ScrollUnit::Pixel);
            assert_eq!(event.user_data, SYNTHETIC_EVENT_USER_DATA);
        }
        other => panic!("expected a scroll, got {other:?}"),
    }
    let wheel = macos::post_horizontal_scroll(-9);
    assert_eq!(wheel.unit, ScrollUnit::Line);
    assert_eq!((wheel.vertical, wheel.horizontal), (0, -9));
}

#[test]
fn media_keys_on_macos_carry_type_and_state() {
    match execute_macos(&Action::NextTrack) {
        MacStep::Media(data) => assert_eq!(data, vec![0x0011_0A00, 0x0011_0B00]),
        other => panic!("expected media keys, got {other:?}"),
    }
    match execute_macos(&Action::VolumeUp) {
        MacStep::Media(data) => assert_eq!(data, vec![0x0A00, 0x0B00]),
        other => panic!("expected media keys, got {other:?}"),
    }
}

#[test]
fn window_actions_on_macos_go_to_the_dock() {
    for (action, name) in [
        (Action::MissionControl, "com.apple.expose.awake"),
        (Action::AppExpose, "com.apple.expose.front.awake"),
        (Action::ShowDesktop, "com.apple.showdesktop.awake"),
        (Action::LaunchpadShow, "com.apple.launchpad.toggle"),
    ] {
        match execute_macos(&action) {
            MacStep::Dock(notice) => assert_eq!(notice.name(), name),
            other => panic!("expected a notification, got {other:?}"),
        }
    }
    assert!(matches!(execute_macos(&Action::PreviousDesktop), MacStep::Hotkey(79)));
    assert!(matches!(execute_macos(&Action::NextDesktop), MacStep::Hotkey(81)));
}

#[test]
fn a_disabled_hotkey_is_enabled_for_the_press() {
    assert_eq!(post_symbolic_hotkey(None, false), vec![]);
    assert_eq!(
        post_symbolic_hotkey(Some((0x7B, 0x0004_0000)), true),
        vec![HotkeyStep::Press(0x7B, 0x0004_0000)]
    );
    assert_eq!(
        post_symbolic_hotkey(Some((0x7C, 0)), false),
        vec![
            HotkeyStep::SetEnabled(true),
            HotkeyStep::Press(0x7C, 0),
            HotkeyStep::SetEnabled(false),
        ]
    );
}
