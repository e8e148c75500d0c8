use openlogi::binding::{
    default_binding, default_binding_for, default_gesture_binding, Action, Binding, ButtonId, Category,
    GestureDirection,
};
use openlogi::chord::KeyCombo;
use openlogi::ordered_map::OrderedMap;

#[test]
fn catalog_has_at_least_29_entries() {
    let catalog = Action::catalog();
    assert!(
        catalog.len() >= 29,
        "catalog has {} entries, need ≥ 29",
        catalog.len()
    );
}

#[test]
fn catalog_excludes_custom_shortcut() {
    let catalog = Action::catalog();
    for action in &catalog {
        assert!(
            !matches!(action, Action::CustomShortcut(_)),
            "catalog must not contain CustomShortcut"
        );
    }
}

#[test]
fn category_editing_variants() {
    assert_eq!(Action::Copy.category(), Category::Editing);
    assert_eq!(Action::Undo.category(), Category::Editing);
    assert_eq!(Action::SelectAll.category(), Category::Editing);
    assert_eq!(Action::Find.category(), Category::Editing);
    assert_eq!(Action::Save.category(), Category::Editing);
    assert_eq!(Action::Cut.category(), Category::Editing);
    assert_eq!(Action::Redo.category(), Category::Editing);
    assert_eq!(Action::Paste.category(), Category::Editing);
}

#[test]
fn category_browser_variants() {
    assert_eq!(Action::BrowserBack.category(), Category::Browser);
    assert_eq!(Action::BrowserForward.category(), Category::Browser);
    assert_eq!(Action::NewTab.category(), Category::Browser);
    assert_eq!(Action::CloseTab.category(), Category::Browser);
    assert_eq!(Action::ReopenTab.category(), Category::Browser);
    assert_eq!(Action::NextTab.category(), Category::Browser);
    assert_eq!(Action::PrevTab.category(), Category::Browser);
    assert_eq!(Action::ReloadPage.category(), Category::Browser);
}

#[test]
fn category_media_variants() {
    assert_eq!(Action::PlayPause.category(), Category::Media);
    assert_eq!(Action::NextTrack.category(), Category::Media);
    assert_eq!(Action::PrevTrack.category(), Category::Media);
    assert_eq!(Action::VolumeUp.category(), Category::Media);
    assert_eq!(Action::VolumeDown.category(), Category::Media);
    assert_eq!(Action::MuteVolume.category(), Category::Media);
}

#[test]
fn category_mouse_variants() {
    assert_eq!(Action::LeftClick.category(), Category::Mouse);
    assert_eq!(Action::RightClick.category(), Category::Mouse);
    assert_eq!(Action::MiddleClick.category(), Category::Mouse);
}

#[test]
fn category_dpi_variants() {
    assert_eq!(Action::CycleDpiPresets.category(), Category::Dpi);
    assert_eq!(Action::ToggleSmartShift.category(), Category::Dpi);
}

#[test]
fn category_scroll_variants() {
    assert_eq!(Action::ScrollUp.category(), Category::Scroll);
    assert_eq!(Action::ScrollDown.category(), Category::Scroll);
    assert_eq!(Action::HorizontalScrollLeft.category(), Category::Scroll);
    assert_eq!(Action::HorizontalScrollRight.category(), Category::Scroll);
}

#[test]
fn category_navigation_variants() {
    assert_eq!(Action::MissionControl.category(), Category::Navigation);
    assert_eq!(Action::AppExpose.category(), Category::Navigation);
    assert_eq!(Action::PreviousDesktop.category(), Category::Navigation);
    assert_eq!(Action::NextDesktop.category(), Category::Navigation);
    assert_eq!(Action::ShowDesktop.category(), Category::Navigation);
    assert_eq!(Action::LaunchpadShow.category(), Category::Navigation);
}

#[test]
fn category_system_variants() {
    assert_eq!(Action::LockScreen.category(), Category::System);
    assert_eq!(Action::Screenshot.category(), Category::System);
}

#[test]
fn category_labels_are_nonempty() {
    let categories = [
        Category::Editing,
        Category::Browser,
        Category::Media,
        Category::Mouse,
        Category::Dpi,
        Category::Scroll,
        Category::Navigation,
        Category::System,
    ];
    for cat in categories {
        assert!(!cat.label().is_empty(), "label empty for {cat:?}");
    }
}

#[test]
fn dpi_toggle_default_is_cycle_dpi_presets() {
    assert_eq!(
        default_binding(ButtonId::DpiToggle),
        Action::CycleDpiPresets
    );
}

#[test]
fn the_catalog_has_every_pickable_action_once() {
    let catalog = Action::catalog();
    assert_eq!(catalog.len(), 43);
    for (i, action) in catalog.iter().enumerate() {
        assert!(!matches!(action, Action::SetDpiPreset(_) | Action::CustomShortcut(_)));
        assert!(!catalog[..i].contains(action), "{action:?} is there twice");
    }
    assert!(catalog.contains(&Action::CaptureRegion));
    assert!(catalog.contains(&Action::DoNothing));
}

#[test]
fn labels_are_what_the_picker_shows() {
    assert_eq!(Action::DoNothing.label(), "Do Nothing");
    assert_eq!(Action::CaptureRegion.label(), "Capture Region");
    assert_eq!(Action::AppExpose.label(), "App Exposé");
    assert_eq!(Action::SetDpiPreset(0).label(), "DPI Preset 1");
    assert_eq!(Action::SetDpiPreset(254).label(), "DPI Preset 255");
    let combo = KeyCombo::parse_typed("ctrl+shift+c").expect("parse");
    assert_eq!(Action::CustomShortcut(combo).label(), "Ctrl+Shift+C");
    assert_eq!(ButtonId::ThumbwheelScrollUp.label(), "Thumb Wheel Up");
    assert_eq!(GestureDirection::Click.label(), "Click");
    assert_eq!(GestureDirection::Up.glyph(), "↑");
    assert_eq!(GestureDirection::Click.glyph(), "·");
}

#[test]
fn groups_of_actions_that_carry_something() {
    assert_eq!(Action::CaptureRegion.category(), Category::System);
    assert_eq!(Action::SetDpiPreset(1).category(), Category::Dpi);
    assert_eq!(Action::DoNothing.category(), Category::System);
}

#[test]
fn only_the_middle_and_side_buttons_reach_the_hook() {
    let hooked: Vec<ButtonId> =
        ButtonId::ALL.into_iter().filter(|b| b.is_os_hook_button()).collect();
    assert_eq!(hooked, vec![ButtonId::MiddleClick, ButtonId::Back, ButtonId::Forward]);
}

#[test]
fn upgrading_and_filling_keep_what_is_bound() {
    let mut binding = Binding::from(Action::Undo);
    assert!(!binding.is_gesture());
    assert_eq!(binding.direction_action(GestureDirection::Click), None);
    binding.upgrade_to_gesture();
    assert!(binding.is_gesture());
    assert_eq!(binding.click_action(), Action::Undo);
    assert_eq!(binding.direction_action(GestureDirection::Up), None);
    binding.fill_gesture_defaults();
    assert_eq!(binding.click_action(), Action::Undo);
    for direction in [GestureDirection::Up, GestureDirection::Down, GestureDirection::Left] {
        assert_eq!(
            binding.direction_action(direction),
            Some(&default_gesture_binding(direction))
        );
    }
    let once = binding.clone();
    binding.upgrade_to_gesture();
    binding.fill_gesture_defaults();
    assert_eq!(binding, once);

    // Filling is for gesture bindings only.
    let mut single = Binding::Single(Action::Undo);
    single.fill_gesture_defaults();
    assert_eq!(single, Binding::Single(Action::Undo));
}

#[test]
fn a_gesture_without_a_click_clicks_nothing() {
    let binding = Binding::Gesture(OrderedMap::new());
    assert_eq!(binding.click_action(), Action::DoNothing);
}

#[test]
fn fresh_buttons_have_their_default() {
    assert_eq!(default_binding(ButtonId::ThumbwheelScrollUp), Action::HorizontalScrollRight);
    assert_eq!(default_binding(ButtonId::ThumbwheelScrollDown), Action::HorizontalScrollLeft);
    assert_eq!(
        default_binding_for(ButtonId::Back),
        Binding::Single(Action::BrowserBack)
    );
    let gesture = default_binding_for(ButtonId::GestureButton);
    for direction in GestureDirection::ALL {
        assert_eq!(
            gesture.direction_action(direction),
            Some(&default_gesture_binding(direction))
        );
    }
}

#[test]
fn every_button_and_direction_is_listed_once() {
    for (i, button) in ButtonId::ALL.iter().enumerate() {
        assert!(!ButtonId::ALL[..i].contains(button));
    }
    assert_eq!(ButtonId::ALL[0], ButtonId::LeftClick);
    assert_eq!(ButtonId::ALL[9], ButtonId::GestureButton);
    for (i, direction) in GestureDirection::ALL.iter().enumerate() {
        assert!(!GestureDirection::ALL[..i].contains(direction));
    }
}
