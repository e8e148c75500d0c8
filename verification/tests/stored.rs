use openlogi::binding::{Action, ButtonId, GestureDirection};
use openlogi::stored::{route, Route, Shape};

/// The shape of the binding of one button in a configuration file.
fn shape_of(text: &str, button: &str) -> Shape {
    let document: toml::Table = toml::from_str(text).expect("deserialize");
    match &document["bindings"][button] {
        toml::Value::String(text) => Shape::Text(text.clone()),
        toml::Value::Table(table) => Shape::Table(table.keys().cloned().collect()),
        _ => Shape::Other,
    }
}

#[test]
fn binding_direction_keyed_table_routes_to_gesture() {
    for dir in GestureDirection::ALL {
        let toml = format!("bindings.GestureButton.{} = \"None\"", dir.label());
        assert_eq!(
            route(&shape_of(&toml, "GestureButton")),
            Route::Gesture,
            "a {}-keyed table must route to Gesture, not Single",
            dir.label()
        );
    }
}

#[test]
fn a_table_under_the_name_of_an_action_is_a_single_action() {
    assert_eq!(
        route(&shape_of("bindings.DpiToggle.SetDpiPreset = 2", "DpiToggle")),
        Route::Single
    );
    let chord = "bindings.Back.CustomShortcut = { modifiers = 1, key_code = 35, display = \"P\" }";
    assert_eq!(route(&shape_of(chord, "Back")), Route::Single);
}

#[test]
fn a_name_is_a_single_action() {
    assert_eq!(
        route(&shape_of("bindings.Back = \"CaptureRegion\"", "Back")),
        Route::Single
    );
    assert_eq!(route(&shape_of("bindings.Back = \"Up\"", "Back")), Route::Refused);
    assert_eq!(
        route(&shape_of("bindings.Back = \"SetDpiPreset\"", "Back")),
        Route::Refused
    );
}

#[test]
fn anything_else_is_refused() {
    assert_eq!(route(&shape_of("bindings.Back = 3", "Back")), Route::Refused);
    assert_eq!(
        route(&shape_of("bindings.Back = { Up = \"Copy\", Copy = \"Up\" }", "Back")),
        Route::Refused
    );
    assert_eq!(
        route(&shape_of("bindings.Back = { SetDpiPreset = 1, Copy = 2 }", "Back")),
        Route::Refused
    );
}

#[test]
fn a_gesture_binding_may_bind_any_directions() {
    assert_eq!(route(&shape_of("bindings.Back = {}", "Back")), Route::Gesture);
    assert_eq!(
        route(&shape_of("bindings.Back = { Up = \"Copy\", Click = \"Paste\" }", "Back")),
        Route::Gesture
    );
}

#[test]
fn every_pickable_action_is_known_by_its_name() {
    for action in Action::catalog() {
        let name = action.stored_name();
        assert_eq!(Action::from_stored_name(name), Some(action));
        assert_eq!(GestureDirection::from_stored_name(name), None);
    }
    assert_eq!(Action::DoNothing.stored_name(), "None");
    assert_eq!(Action::PrevTab.stored_name(), "PrevTab");
    assert_eq!(Action::SetDpiPreset(4).stored_name(), "SetDpiPreset");
    assert_eq!(Action::from_stored_name("SetDpiPreset"), None);
    for direction in GestureDirection::ALL {
        assert_eq!(
            GestureDirection::from_stored_name(direction.label()),
            Some(direction)
        );
        assert_eq!(Action::from_stored_name(direction.label()), None);
    }
}

#[test]
fn every_button_is_known_by_its_name() {
    for button in ButtonId::ALL {
        assert_eq!(ButtonId::from_stored_name(button.stored_name()), Some(button));
    }
    assert_eq!(ButtonId::DpiToggle.stored_name(), "DpiToggle");
    assert_eq!(ButtonId::from_stored_name("DPI Toggle"), None);
}
