//! The binding maps that event handling reads: a device's stored bindings, with
//! the overlay of the foreground app, on top of the built-in defaults.
//!
//! A device is named by its configuration key, so that any caller that has a
//! [`Config`] can build the maps.
use vstd::prelude::*;
use crate::binding::{
    default_action, default_binding, default_gesture_action, default_gesture_map, fill_directions,
    law_all_buttons_listed, Action, Binding, BindingView, ButtonId, GestureDirection,
};
use crate::config::{law_override_is_scoped, Config, ConfigView, DeviceView};
use crate::ordered_map::OrderedMap;

verus! {

/// What is in effect for a device: nothing where no device is named.
pub open spec fn in_effect(
    config: ConfigView,
    key: Option<Seq<char>>,
    app: Option<Seq<char>>,
) -> Map<ButtonId, BindingView> {
    match key {
        Some(key) => config.device(key).effective(app),
        None => Map::empty(),
    }
}

/// The text of an optional string slice.
pub open spec fn slice_text(s: Option<&str>) -> Option<Seq<char>> {
    match s {
        Some(s) => Some(s@),
        None => None,
    }
}

/// The action of a plain press. A gesture binding that leaves the click open has
/// no opinion on it, so the default stays; a single binding to nothing is a
/// choice, and stands.
pub open spec fn press_action(stored: Map<ButtonId, BindingView>, button: ButtonId) -> Action {
    match stored.get(button) {
        Some(BindingView::Single(action)) => action,
        Some(BindingView::Gesture(map)) => match map.get(GestureDirection::Click) {
            Some(action) => action,
            None => default_action(button),
        },
        None => default_action(button),
    }
}

/// The directions that the dedicated gesture button acts on: every direction,
/// with its default where none is stored, or none at all where the button is not
/// in gesture mode.
pub open spec fn gesture_map(config: ConfigView, key: Option<Seq<char>>) -> Map<
    GestureDirection,
    Action,
> {
    match key {
        Some(key) => if config.gestures(key, ButtonId::GestureButton) {
            default_gesture_map().union_prefer_right(
                config.device(key).binding(ButtonId::GestureButton)->Gesture_0,
            )
        } else {
            Map::empty()
        },
        None => Map::empty(),
    }
}

/// The stored directions of each button that the OS hook sees and that is in
/// gesture mode.
pub open spec fn hook_gestures(stored: Map<ButtonId, BindingView>) -> Map<
    ButtonId,
    Map<GestureDirection, Action>,
> {
    Map::new(
        |b: ButtonId| b.os_hooked() && stored.contains_key(b) && stored[b] is Gesture,
        |b: ButtonId| stored[b]->Gesture_0,
    )
}

/// Effective per-button single-action map for the device `config_key`, with
/// `app_bundle`'s per-app overlay applied. Unset buttons fall back to
/// [`default_binding`].
///
/// A gesture binding stands for its click here. The swipes of the gesture button
/// are in [`gesture_bindings_for`].
#[must_use]
pub fn bindings_for(
    config: &Config,
    config_key: Option<&str>,
    app_bundle: Option<&str>,
) -> (r: OrderedMap<ButtonId, Action>)
    ensures
        r@ == Map::total(
            |b: ButtonId|
                press_action(in_effect(config@, slice_text(config_key), slice_text(app_bundle)), b),
        ),
{
    let stored = match config_key {
        Some(key) => config.effective_bindings(key, app_bundle),
        None => OrderedMap::new(),
    };
    let ghost target = Map::total(|b: ButtonId| press_action(stored@, b));
    let mut bindings: OrderedMap<ButtonId, Action> = OrderedMap::new();
    let mut i: usize = 0;
    while i < 10
        invariant
            i <= 10,
            target == Map::total(|b: ButtonId| press_action(stored@, b)),
            forall|b: ButtonId| #[trigger] bindings@.contains_key(b) <==> b.rank() < i,
            forall|b: ButtonId| #[trigger]
                bindings@.contains_key(b) ==> bindings@[b] == target[b],
        decreases 10 - i,
    {
        let button = ButtonId::ALL[i];
        proof {
            law_all_buttons_listed(button);
        }
        let action = match stored.get(&button) {
            Some(Binding::Single(action)) => action.clone(),
            Some(Binding::Gesture(map)) => match map.get(&GestureDirection::Click) {
                Some(action) => action.clone(),
                None => default_binding(button),
            },
            None => default_binding(button),
        };
        bindings.insert(button, action);
        assert forall|b: ButtonId| #[trigger] bindings@.contains_key(b) <==> b.rank() < i + 1 by {
            law_all_buttons_listed(b);
        }
        i = i + 1;
    }
    proof {
        assert forall|b: ButtonId| bindings@.contains_key(b) by {
            law_all_buttons_listed(b);
        }
        assert(bindings@ =~= target);
    }
    bindings
}

/// Effective gesture bindings for the device `config_key`'s dedicated gesture
/// button. Unset directions fall back to the default of their direction.
///
/// While the button is not in gesture mode the map is empty, so that nothing is
/// dispatched for it. Other buttons being in gesture mode has no bearing on this
/// map: they are in [`oshook_gestures_for`].
#[must_use]
pub fn gesture_bindings_for(config: &Config, config_key: Option<&str>) -> (r: OrderedMap<
    GestureDirection,
    Action,
>)
    ensures
        r@ == gesture_map(config@, slice_text(config_key)),
{
    match config_key {
        Some(key) => {
            if !config.is_gesture_button(key, ButtonId::GestureButton) {
                return OrderedMap::new();
            }
            let mut bindings = config.gesture_bindings_for(key);
            let ghost stored = bindings@;
            fill_directions(&mut bindings);
            proof {
                let device = config@.device(key@);
                if !device.bindings.contains_key(ButtonId::GestureButton) {
                    assert(default_gesture_map().union_prefer_right(stored)
                        =~= default_gesture_map());
                    assert(default_gesture_map().union_prefer_right(default_gesture_map())
                        =~= default_gesture_map());
                }
            }
            bindings
        },
        None => OrderedMap::new(),
    }
}

/// The directions of every button that the OS hook sees and that is in gesture
/// mode on `config_key`, with `app_bundle`'s per-app overlay applied. Any number
/// of buttons can be, and each acts on its own.
///
/// Each button has its stored map here, without defaults: a direction that the
/// map leaves open does nothing. The dedicated gesture button never reaches the
/// OS hook, so it has no entry.
///
/// A per-app override makes a button a single action in that app, so it has no
/// entry there either.
#[must_use]
pub fn oshook_gestures_for(
    config: &Config,
    config_key: Option<&str>,
    app_bundle: Option<&str>,
) -> (r: OrderedMap<ButtonId, OrderedMap<GestureDirection, Action>>)
    ensures
        r@ == hook_gestures(in_effect(config@, slice_text(config_key), slice_text(app_bundle))),
{
    let effective = match config_key {
        Some(key) => config.effective_bindings(key, app_bundle),
        None => OrderedMap::new(),
    };
    let ghost target = hook_gestures(effective@);
    let mut gestures: OrderedMap<ButtonId, OrderedMap<GestureDirection, Action>> =
        OrderedMap::new();
    let mut i: usize = 0;
    while i < 10
        invariant
            i <= 10,
            target == hook_gestures(effective@),
            forall|b: ButtonId| #[trigger]
                gestures@.contains_key(b) <==> b.rank() < i && target.contains_key(b),
            forall|b: ButtonId| #[trigger]
                gestures@.contains_key(b) ==> gestures@[b] == target[b],
        decreases 10 - i,
    {
        let button = ButtonId::ALL[i];
        proof {
            law_all_buttons_listed(button);
        }
        let ghost before = gestures@;
        if button.is_os_hook_button() {
            if let Some(Binding::Gesture(map)) = effective.get(&button) {
                gestures.insert(button, map.clone());
            }
        }
        assert forall|b: ButtonId| #[trigger] gestures@.contains_key(b) <==> b.rank() < i + 1
            && target.contains_key(b) by {
            law_all_buttons_listed(b);
            assert(before.contains_key(b) <==> b.rank() < i && target.contains_key(b));
        }
        i = i + 1;
    }
    proof {
        assert forall|b: ButtonId| target.contains_key(b) implies #[trigger] gestures@.contains_key(
            b,
        ) by {
            law_all_buttons_listed(b);
        }
        assert(gestures@ =~= target);
    }
    gestures
}

// ---------------------------------------------------------------------------
// Laws
// ---------------------------------------------------------------------------

/// A gesture binding without a click leaves the button's default press in place;
/// an explicit click, or a single action, decides it.
pub proof fn law_press_action(
    stored: Map<ButtonId, BindingView>,
    button: ButtonId,
    binding: BindingView,
)
    ensures
        press_action(Map::empty(), button) == default_action(button),
        binding is Single || binding.direction(GestureDirection::Click) is Some ==> press_action(
            stored.insert(button, binding),
            button,
        ) == binding.click(),
        binding is Gesture && binding.direction(GestureDirection::Click) is None ==> press_action(
            stored.insert(button, binding),
            button,
        ) == default_action(button),
{
}

/// The dedicated gesture button acts on all directions or on none: on all exactly
/// while it is in gesture mode.
pub proof fn law_gesture_map_is_all_or_nothing(
    config: ConfigView,
    key: Option<Seq<char>>,
    direction: GestureDirection,
)
    ensures
        gesture_map(config, key).contains_key(direction) <==> key is Some && config.gestures(
            key->Some_0,
            ButtonId::GestureButton,
        ),
        gesture_map(config, None) == Map::<GestureDirection, Action>::empty(),
        gesture_map(ConfigView::standard(), key).contains_key(direction) ==> gesture_map(
            ConfigView::standard(),
            key,
        )[direction] == default_gesture_action(direction),
{
}

/// Turning the dedicated gesture button off silences it. Turning another button
/// on or off has no bearing on it.
pub proof fn law_gesture_button_off_is_silent(
    config: ConfigView,
    key: Seq<char>,
    other: ButtonId,
)
    ensures
        gesture_map(config.gesture_disabled(key, ButtonId::GestureButton), Some(key)) == Map::<
            GestureDirection,
            Action,
        >::empty(),
        !(other is GestureButton) ==> gesture_map(config.gesture_enabled(key, other), Some(key))
            == gesture_map(config, Some(key)),
        !(other is GestureButton) ==> gesture_map(config.gesture_disabled(key, other), Some(key))
            == gesture_map(config, Some(key)),
{
}

/// Only buttons that reach the OS hook have directions there, so the dedicated
/// gesture button never has.
pub proof fn law_hook_gestures_reach_the_hook(
    stored: Map<ButtonId, BindingView>,
    button: ButtonId,
)
    ensures
        hook_gestures(stored).contains_key(button) ==> button.os_hooked(),
        !hook_gestures(stored).contains_key(ButtonId::GestureButton),
{
}

/// A button of the OS hook that was put in gesture mode has all its directions
/// there, in every app that does not override the button.
pub proof fn law_enabled_button_gestures(
    config: ConfigView,
    key: Seq<char>,
    app: Option<Seq<char>>,
    button: ButtonId,
    direction: GestureDirection,
)
    requires
        button.os_hooked(),
        app matches Some(app) ==> !config.device(key).overlay(app).contains_key(button),
    ensures
        ({
            let gestures = hook_gestures(
                in_effect(config.gesture_enabled(key, button), Some(key), app),
            );
            gestures.contains_key(button) && gestures[button].contains_key(direction)
        }),
{
}

/// An override of a button takes it, and no other button, out of gesture mode in
/// that app, and is what a press does there. Other apps are not affected.
pub proof fn law_override_replaces_gestures(
    device: DeviceView,
    app: Seq<char>,
    button: ButtonId,
    action: Action,
    other_app: Seq<char>,
    other_button: ButtonId,
)
    ensures
        ({
            let after = device.with_override(app, button, Some(action));
            &&& !hook_gestures(after.effective(Some(app))).contains_key(button)
            &&& press_action(after.effective(Some(app)), button) == action
            &&& other_button != button ==> hook_gestures(after.effective(Some(app))).get(
                other_button,
            ) == hook_gestures(device.effective(Some(app))).get(other_button)
            &&& other_button != button ==> press_action(after.effective(Some(app)), other_button)
                == press_action(device.effective(Some(app)), other_button)
            &&& other_app != app ==> after.effective(Some(other_app)) == device.effective(
                Some(other_app),
            )
        }),
{
    law_override_is_scoped(device, app, button, action, other_app, other_button);
    let before = device.effective(Some(app));
    let after = device.with_override(app, button, Some(action)).effective(Some(app));
    assert(after.get(button) == Some(BindingView::Single(action)));
    if other_button != button {
        assert(after.get(other_button) == before.get(other_button));
    }
}

/// Taking a button out of gesture mode keeps what its press does, where the
/// binding had a click.
pub proof fn law_disabling_keeps_the_press(config: ConfigView, key: Seq<char>, button: ButtonId)
    requires
        config.device(key).bindings.contains_key(button),
        config.device(key).bindings[button].direction(GestureDirection::Click) is Some,
    ensures
        ({
            let after = config.gesture_disabled(key, button);
            &&& press_action(in_effect(after, Some(key), None), button) == press_action(
                in_effect(config, Some(key), None),
                button,
            )
            &&& !hook_gestures(in_effect(after, Some(key), None)).contains_key(button)
        }),
{
}

/// What is in effect: the bindings of the device that is named, under the app in the
/// foreground, and nothing where no device is named.
pub proof fn law_in_effect(
    config: ConfigView,
    key: Seq<char>,
    app: Option<Seq<char>>,
    button: ButtonId,
)
    ensures
        in_effect(config, Some(key), app) == config.device(key).effective(app),
        in_effect(config, Some(key), None) == config.device(key).bindings,
        !in_effect(config, None, app).contains_key(button),
{
}

/// An optional text shows the text that it holds.
pub proof fn law_slice_text(s: &str)
    ensures
        slice_text(Some(s)) == Some(s@),
        slice_text(None) is None,
{
}

/// What a press does: the single action, the click of a gesture binding, or else what the
/// button does out of the box.
pub proof fn law_press_of_each_binding(
    stored: Map<ButtonId, BindingView>,
    button: ButtonId,
    action: Action,
    map: Map<GestureDirection, Action>,
)
    ensures
        stored.get(button) == Some(BindingView::Single(action)) ==> press_action(stored, button)
            == action,
        stored.get(button) == Some(BindingView::Gesture(map)) && map.contains_key(
            GestureDirection::Click,
        ) ==> press_action(stored, button) == map[GestureDirection::Click],
        stored.get(button) == Some(BindingView::Gesture(map)) && !map.contains_key(
            GestureDirection::Click,
        ) ==> press_action(stored, button) == default_action(button),
        !stored.contains_key(button) ==> press_action(stored, button) == default_action(button),
{
}

/// Out of the box, whatever device is named and whatever app is in the foreground, each
/// button does what it is made for, and no button of the OS hook is in gesture mode.
pub proof fn law_out_of_the_box(key: Option<Seq<char>>, app: Option<Seq<char>>, button: ButtonId)
    ensures
        ({
            let stored = in_effect(ConfigView::standard(), key, app);
            &&& press_action(stored, ButtonId::LeftClick) == Action::LeftClick
            &&& press_action(stored, ButtonId::RightClick) == Action::RightClick
            &&& press_action(stored, ButtonId::MiddleClick) == Action::MiddleClick
            &&& press_action(stored, ButtonId::Back) == Action::BrowserBack
            &&& press_action(stored, ButtonId::Forward) == Action::BrowserForward
            &&& press_action(stored, ButtonId::DpiToggle) == Action::CycleDpiPresets
            &&& press_action(stored, ButtonId::Thumbwheel) == Action::AppExpose
            &&& press_action(stored, ButtonId::ThumbwheelScrollUp) == Action::HorizontalScrollRight
            &&& press_action(stored, ButtonId::ThumbwheelScrollDown)
                == Action::HorizontalScrollLeft
            &&& press_action(stored, ButtonId::GestureButton) == Action::MissionControl
            &&& !hook_gestures(stored).contains_key(button)
        }),
{
    let stored = in_effect(ConfigView::standard(), key, app);
    assert(forall|b: ButtonId| !(#[trigger] stored.contains_key(b)));
}

/// While the dedicated gesture button is in gesture mode, each direction does what is stored
/// for it, or else what it does out of the box.
pub proof fn law_gesture_directions(
    config: ConfigView,
    key: Seq<char>,
    map: Map<GestureDirection, Action>,
    direction: GestureDirection,
)
    requires
        config.device(key).binding(ButtonId::GestureButton) == BindingView::Gesture(map),
    ensures
        gesture_map(config, Some(key)).get(direction) == Some(
            if map.contains_key(direction) {
                map[direction]
            } else {
                default_gesture_action(direction)
            },
        ),
{
}

/// A button has directions at the OS hook exactly where it reaches the hook and its binding
/// is a gesture binding, and they are those that are stored.
pub proof fn law_hook_directions(stored: Map<ButtonId, BindingView>, button: ButtonId)
    ensures
        hook_gestures(stored).contains_key(button) <==> (button == ButtonId::MiddleClick || button
            == ButtonId::Back || button == ButtonId::Forward) && stored.contains_key(button)
            && stored[button] is Gesture,
        hook_gestures(stored).contains_key(button) ==> stored[button] == BindingView::Gesture(
            hook_gestures(stored)[button],
        ),
{
}

} // verus!
