//! User configuration: app-wide preferences and, for each physical device, its
//! bindings and settings.
//!
//! Devices are kept under a stable physical-device identifier such as
//! `"receiver:abc123:slot:2"`.
use vstd::prelude::*;
use crate::binding::{
    default_binding_for, default_binding_view, default_gesture_action, default_gesture_map,
    law_all_buttons_listed, Action, Binding, BindingView, ButtonId, GestureDirection,
};
use crate::device::{Capabilities, DeviceKind, DeviceModelInfo};
use crate::ordered_map::{without_empty, OrderedMap, Replica};
use crate::text::text_before;

verus! {

/// The schema version that this crate writes.
///
/// Version 3 keys devices by physical device instead of by model. Version 2
/// merged the per-device `button_bindings` and `gesture_bindings` into one map;
/// a version 1 file still loads, through [`RawDeviceConfig`], and is written in
/// the current shape on the next save. Only a file that is *newer* than this
/// version is refused.
pub const SCHEMA_VERSION: u32 = 3;

// ---------------------------------------------------------------------------
// App-wide settings
// ---------------------------------------------------------------------------

/// Light/dark appearance preference.
#[derive(Clone, Copy, Debug, PartialEq, Eq, Structural)]
pub enum Appearance {
    /// Follow the operating system's light/dark setting.
    System,
    /// Always use the light variant of the selected theme.
    Light,
    /// Always use the dark variant of the selected theme.
    Dark,
}

impl Default for Appearance {
    fn default() -> (r: Self)
        ensures
            r == Appearance::System,
    {
        Appearance::System
    }
}

/// Out-of-the-box [`AppSettings::thumbwheel_sensitivity`]: the wheel scrolls at
/// 1× and is left to scroll natively unless a binding diverges from its
/// default.
pub const DEFAULT_THUMBWHEEL_SENSITIVITY: i32 = 14;

/// Lowest selectable [`AppSettings::thumbwheel_sensitivity`].
pub const MIN_THUMBWHEEL_SENSITIVITY: i32 = 1;

/// Highest selectable [`AppSettings::thumbwheel_sensitivity`].
pub const MAX_THUMBWHEEL_SENSITIVITY: i32 = 100;

/// App-wide preferences not tied to any particular device.
#[derive(Debug, PartialEq, Eq)]
pub struct AppSettings {
    /// Start the app on login.
    pub launch_at_login: bool,
    /// Opt-in update check.
    pub check_for_updates: bool,
    /// Opt-in automatic install of an update that the check has found.
    pub auto_install_updates: bool,
    /// Set once the first-run update prompt has been answered, either way.
    pub update_prompt_seen: bool,
    /// Show an icon in the menu bar or tray.
    pub show_in_menu_bar: bool,
    /// Download device images when a device appears.
    pub auto_download_assets: bool,
    /// UI language as a locale code. `None` follows the system locale.
    pub language: Option<String>,
    /// Thumb-wheel responsiveness, from [`MIN_THUMBWHEEL_SENSITIVITY`] to
    /// [`MAX_THUMBWHEEL_SENSITIVITY`].
    pub thumbwheel_sensitivity: i32,
    /// Light/dark appearance preference.
    pub appearance: Appearance,
    /// Name of the theme used in light mode. `None` uses the brand theme.
    pub theme_light: Option<String>,
    /// Name of the theme used in dark mode. `None` uses the brand theme.
    pub theme_dark: Option<String>,
    /// Corner-radius override for the UI, in pixels.
    pub ui_radius: Option<u8>,
}

/// What [`AppSettings`] stand for.
#[verifier::ext_equal]
pub struct AppSettingsView {
    pub launch_at_login: bool,
    pub check_for_updates: bool,
    pub auto_install_updates: bool,
    pub update_prompt_seen: bool,
    pub show_in_menu_bar: bool,
    pub auto_download_assets: bool,
    pub language: Option<Seq<char>>,
    pub thumbwheel_sensitivity: i32,
    pub appearance: Appearance,
    pub theme_light: Option<Seq<char>>,
    pub theme_dark: Option<Seq<char>>,
    pub ui_radius: Option<u8>,
}

impl AppSettingsView {
    /// The settings of a fresh installation.
    pub open spec fn standard() -> AppSettingsView {
        AppSettingsView {
            launch_at_login: false,
            check_for_updates: false,
            auto_install_updates: false,
            update_prompt_seen: false,
            show_in_menu_bar: true,
            auto_download_assets: true,
            language: None,
            thumbwheel_sensitivity: DEFAULT_THUMBWHEEL_SENSITIVITY,
            appearance: Appearance::System,
            theme_light: None,
            theme_dark: None,
            ui_radius: None,
        }
    }
}

/// The text of an optional string.
pub open spec fn text_of(s: Option<String>) -> Option<Seq<char>> {
    match s {
        Some(s) => Some(s@),
        None => None,
    }
}

impl View for AppSettings {
    type V = AppSettingsView;

    open spec fn view(&self) -> AppSettingsView {
        AppSettingsView {
            launch_at_login: self.launch_at_login,
            check_for_updates: self.check_for_updates,
            auto_install_updates: self.auto_install_updates,
            update_prompt_seen: self.update_prompt_seen,
            show_in_menu_bar: self.show_in_menu_bar,
            auto_download_assets: self.auto_download_assets,
            language: text_of(self.language),
            thumbwheel_sensitivity: self.thumbwheel_sensitivity,
            appearance: self.appearance,
            theme_light: text_of(self.theme_light),
            theme_dark: text_of(self.theme_dark),
            ui_radius: self.ui_radius,
        }
    }
}

impl Clone for AppSettings {
    fn clone(&self) -> (r: Self)
        ensures
            r@ == self@,
    {
        AppSettings {
            launch_at_login: self.launch_at_login,
            check_for_updates: self.check_for_updates,
            auto_install_updates: self.auto_install_updates,
            update_prompt_seen: self.update_prompt_seen,
            show_in_menu_bar: self.show_in_menu_bar,
            auto_download_assets: self.auto_download_assets,
            language: self.language.clone(),
            thumbwheel_sensitivity: self.thumbwheel_sensitivity,
            appearance: self.appearance,
            theme_light: self.theme_light.clone(),
            theme_dark: self.theme_dark.clone(),
            ui_radius: self.ui_radius,
        }
    }
}

impl Default for AppSettings {
    fn default() -> (r: Self)
        ensures
            r@ == AppSettingsView::standard(),
    {
        AppSettings {
            launch_at_login: false,
            check_for_updates: false,
            auto_install_updates: false,
            update_prompt_seen: false,
            show_in_menu_bar: default_true(),
            auto_download_assets: default_true(),
            language: None,
            thumbwheel_sensitivity: default_thumbwheel_sensitivity(),
            appearance: Appearance::System,
            theme_light: None,
            theme_dark: None,
            ui_radius: None,
        }
    }
}

impl AppSettings {
    /// Whether nothing diverges from the default, so that the settings need not
    /// be written out.
    #[must_use]
    pub fn is_default(&self) -> (r: bool)
        ensures
            r == (self@ == AppSettingsView::standard()),
    {
        !self.launch_at_login && !self.check_for_updates && !self.auto_install_updates
            && !self.update_prompt_seen && self.show_in_menu_bar && self.auto_download_assets
            && self.language.is_none() && self.thumbwheel_sensitivity
            == DEFAULT_THUMBWHEEL_SENSITIVITY && self.appearance == Appearance::System
            && self.theme_light.is_none() && self.theme_dark.is_none() && self.ui_radius.is_none()
    }
}

/// The value of a flag that is on where a file does not mention it.
pub fn default_true() -> (r: bool)
    ensures
        r,
{
    true
}

/// The thumb-wheel sensitivity where a file does not mention it.
pub fn default_thumbwheel_sensitivity() -> (r: i32)
    ensures
        r == DEFAULT_THUMBWHEEL_SENSITIVITY,
{
    DEFAULT_THUMBWHEEL_SENSITIVITY
}

/// Whether a flag is off, so that it need not be written out.
pub fn is_false(b: &bool) -> (r: bool)
    ensures
        r == !*b,
{
    !*b
}

// ---------------------------------------------------------------------------
// Per-device settings
// ---------------------------------------------------------------------------

/// Per-device RGB lighting: a single static color, brightness, and on/off.
#[derive(Debug, PartialEq, Eq)]
pub struct Lighting {
    pub enabled: bool,
    /// Static color as 6 hex digits `"RRGGBB"` (no leading `#`).
    pub color: String,
    /// Brightness percent.
    pub brightness: u8,
}

impl Clone for Lighting {
    fn clone(&self) -> (r: Self)
        ensures
            r == *self,
    {
        Lighting {
            enabled: self.enabled,
            color: self.color.clone(),
            brightness: self.brightness,
        }
    }
}

impl Default for Lighting {
    fn default() -> (r: Self)
        ensures
            r.enabled,
            r.color@ == "ffffff"@,
            r.brightness == 100,
    {
        Lighting {
            enabled: default_lighting_enabled(),
            color: default_lighting_color(),
            brightness: default_lighting_brightness(),
        }
    }
}

/// Whether lighting is on where a file does not say.
pub fn default_lighting_enabled() -> (r: bool)
    ensures
        r,
{
    true
}

/// The color of the lighting where a file does not say.
pub fn default_lighting_color() -> (r: String)
    ensures
        r@ == "ffffff"@,
{
    "ffffff".to_string()
}

/// The brightness of the lighting where a file does not say.
pub fn default_lighting_brightness() -> (r: u8)
    ensures
        r == 100,
{
    100
}

/// Brings a brightness that was read from a file into `0..=100`, so that a
/// hand-edited file cannot feed an out-of-range value into the scaling.
pub fn clamp_brightness(brightness: u8) -> (r: u8)
    ensures
        r == if brightness < 100 {
            brightness
        } else {
            100
        },
{
    if brightness < 100 {
        brightness
    } else {
        100
    }
}

/// Scroll-wheel mode for [`SmartShift`]: free-spin or ratchet (clicky).
#[derive(Clone, Copy, Debug, PartialEq, Eq, Structural)]
pub enum WheelMode {
    Free,
    Ratchet,
}

/// Per-device SmartShift wheel configuration. It is kept so that it can be
/// applied again when the device reconnects.
#[derive(Clone, Copy, Debug, PartialEq, Eq, Structural)]
pub struct SmartShift {
    pub mode: WheelMode,
    /// Auto-disengage threshold (`0x01`–`0xFE`, in 0.25 turn/s steps), or `0xFF`
    /// for a permanently engaged ratchet.
    pub auto_disengage: u8,
    /// Tunable-torque force percentage (`1`–`100`), `0` when the device does not
    /// support tunable torque.
    pub tunable_torque: u8,
}

/// Last-known identity of a device, captured while it was online, so that it can
/// be shown with the right panels while it is asleep. Every field is a property
/// of the model, not of the connection.
#[derive(Debug, PartialEq, Eq)]
pub struct DeviceIdentity {
    /// The name shown in the carousel.
    pub display_name: String,
    /// HID++ model identity, when available.
    pub model_info: Option<DeviceModelInfo>,
    /// Firmware codename, when available.
    pub codename: Option<String>,
    /// The device's kind.
    pub kind: DeviceKind,
    /// The panels that the device has a use for.
    pub capabilities: Capabilities,
}

impl Clone for DeviceIdentity {
    fn clone(&self) -> (r: Self)
        ensures
            r == *self,
    {
        DeviceIdentity {
            display_name: self.display_name.clone(),
            model_info: self.model_info.clone(),
            codename: self.codename.clone(),
            kind: self.kind.clone(),
            capabilities: self.capabilities,
        }
    }
}

/// Settings scoped to a single physical device.
#[derive(Debug)]
pub struct DeviceConfig {
    /// Last-known identity. `None` where none has been recorded.
    pub identity: Option<DeviceIdentity>,
    /// Every rebound button's binding. A button is in gesture mode exactly when
    /// its binding is a [`Binding::Gesture`]; any number of buttons can be.
    pub bindings: OrderedMap<ButtonId, Binding>,
    /// Per-application overlays, keyed by bundle identifier. While an app is in
    /// the foreground its entries take the place of the whole binding of a
    /// button; buttons that it does not list keep theirs.
    pub per_app_bindings: OrderedMap<String, OrderedMap<ButtonId, Action>>,
    /// Ordered list of DPI presets, cycled through by
    /// [`Action::CycleDpiPresets`] and indexed by [`Action::SetDpiPreset`].
    pub dpi_presets: Vec<u32>,
    /// The sensor DPI that the user committed. `None` until the first change.
    pub dpi: Option<u32>,
    /// RGB lighting. `None` until the first change.
    pub lighting: Option<Lighting>,
    /// SmartShift wheel configuration. `None` until the first change.
    pub smartshift: Option<SmartShift>,
    /// Invert the scroll wheel relative to the OS setting.
    pub invert_scroll: bool,
}

/// What a [`DeviceConfig`] stands for.
#[verifier::ext_equal]
pub struct DeviceView {
    pub identity: Option<DeviceIdentity>,
    pub bindings: Map<ButtonId, BindingView>,
    pub per_app_bindings: Map<Seq<char>, Map<ButtonId, Action>>,
    pub dpi_presets: Seq<u32>,
    pub dpi: Option<u32>,
    pub lighting: Option<Lighting>,
    pub smartshift: Option<SmartShift>,
    pub invert_scroll: bool,
}

impl View for DeviceConfig {
    type V = DeviceView;

    open spec fn view(&self) -> DeviceView {
        DeviceView {
            identity: self.identity,
            bindings: self.bindings@,
            per_app_bindings: self.per_app_bindings@,
            dpi_presets: self.dpi_presets@,
            dpi: self.dpi,
            lighting: self.lighting,
            smartshift: self.smartshift,
            invert_scroll: self.invert_scroll,
        }
    }
}

impl DeviceView {
    /// A device with nothing configured.
    pub open spec fn fresh() -> DeviceView {
        DeviceView {
            identity: None,
            bindings: Map::empty(),
            per_app_bindings: Map::empty(),
            dpi_presets: Seq::empty(),
            dpi: None,
            lighting: None,
            smartshift: None,
            invert_scroll: false,
        }
    }

    /// The binding of a button: the stored one, else the canonical default.
    pub open spec fn binding(self, button: ButtonId) -> BindingView {
        if self.bindings.contains_key(button) {
            self.bindings[button]
        } else {
            default_binding_view(button)
        }
    }

    /// The overlay of an app, empty where it has none.
    pub open spec fn overlay(self, app: Seq<char>) -> Map<ButtonId, Action> {
        if self.per_app_bindings.contains_key(app) {
            self.per_app_bindings[app]
        } else {
            Map::empty()
        }
    }

    /// The stored bindings with the overlay of the foreground app on top, each
    /// of its entries as a single action.
    pub open spec fn effective(self, app: Option<Seq<char>>) -> Map<ButtonId, BindingView> {
        match app {
            Some(app) => self.bindings.union_prefer_right(
                self.overlay(app).map_values(|a: Action| BindingView::Single(a)),
            ),
            None => self.bindings,
        }
    }

    /// The device with `binding` for `button`.
    pub open spec fn with_binding(self, button: ButtonId, binding: BindingView) -> DeviceView {
        DeviceView { bindings: self.bindings.insert(button, binding), ..self }
    }

    /// The device with an app's entry for a button set, or removed, and without
    /// apps that have no entries.
    pub open spec fn with_override(
        self,
        app: Seq<char>,
        button: ButtonId,
        action: Option<Action>,
    ) -> DeviceView {
        let entries = match action {
            Some(action) => self.overlay(app).insert(button, action),
            None => self.overlay(app).remove(button),
        };
        DeviceView {
            per_app_bindings: without_empty(self.per_app_bindings.insert(app, entries)),
            ..self
        }
    }
}

impl Replica for DeviceConfig {
    fn replica(&self) -> (r: Self) {
        let presets = self.dpi_presets.clone();
        assert(presets@ =~= self.dpi_presets@);
        DeviceConfig {
            identity: self.identity.clone(),
            bindings: self.bindings.clone(),
            per_app_bindings: self.per_app_bindings.clone(),
            dpi_presets: presets,
            dpi: self.dpi,
            lighting: self.lighting.clone(),
            smartshift: self.smartshift,
            invert_scroll: self.invert_scroll,
        }
    }
}

impl Clone for DeviceConfig {
    fn clone(&self) -> (r: Self)
        ensures
            r@ == self@,
    {
        self.replica()
    }
}

impl Default for DeviceConfig {
    fn default() -> (r: Self)
        ensures
            r@ == DeviceView::fresh(),
    {
        DeviceConfig {
            identity: None,
            bindings: OrderedMap::new(),
            per_app_bindings: OrderedMap::new(),
            dpi_presets: Vec::new(),
            dpi: None,
            lighting: None,
            smartshift: None,
            invert_scroll: false,
        }
    }
}

// ---------------------------------------------------------------------------
// Device settings as a file has them
// ---------------------------------------------------------------------------

/// A device's settings as they are read from a file, where bindings may still be
/// in the shape of version 1: `button_bindings` for single actions and
/// `gesture_bindings` for the directions of the gesture button.
#[derive(Debug)]
pub struct RawDeviceConfig {
    pub identity: Option<DeviceIdentity>,
    /// The current shape.
    pub bindings: OrderedMap<ButtonId, Binding>,
    /// Version 1 single actions.
    pub button_bindings: OrderedMap<ButtonId, Action>,
    /// Version 1 directions of the gesture button.
    pub gesture_bindings: OrderedMap<GestureDirection, Action>,
    pub per_app_bindings: OrderedMap<String, OrderedMap<ButtonId, Action>>,
    pub dpi_presets: Vec<u32>,
    pub dpi: Option<u32>,
    pub lighting: Option<Lighting>,
    pub smartshift: Option<SmartShift>,
    pub invert_scroll: bool,
}

/// What a [`RawDeviceConfig`] stands for.
#[verifier::ext_equal]
pub struct RecordView {
    pub identity: Option<DeviceIdentity>,
    pub bindings: Map<ButtonId, BindingView>,
    pub button_bindings: Map<ButtonId, Action>,
    pub gesture_bindings: Map<GestureDirection, Action>,
    pub per_app_bindings: Map<Seq<char>, Map<ButtonId, Action>>,
    pub dpi_presets: Seq<u32>,
    pub dpi: Option<u32>,
    pub lighting: Option<Lighting>,
    pub smartshift: Option<SmartShift>,
    pub invert_scroll: bool,
}

impl View for RawDeviceConfig {
    type V = RecordView;

    open spec fn view(&self) -> RecordView {
        RecordView {
            identity: self.identity,
            bindings: self.bindings@,
            button_bindings: self.button_bindings@,
            gesture_bindings: self.gesture_bindings@,
            per_app_bindings: self.per_app_bindings@,
            dpi_presets: self.dpi_presets@,
            dpi: self.dpi,
            lighting: self.lighting,
            smartshift: self.smartshift,
            invert_scroll: self.invert_scroll,
        }
    }
}

/// One binding map out of the three that a file can have. The current shape wins
/// on every button. The gesture button then gets the version 1 directions, if
/// there are any, and never a version 1 single action; every other button gets
/// its version 1 action.
pub open spec fn folded(
    bindings: Map<ButtonId, BindingView>,
    singles: Map<ButtonId, Action>,
    directions: Map<GestureDirection, Action>,
) -> Map<ButtonId, BindingView> {
    Map::new(
        |b: ButtonId|
            bindings.contains_key(b) || if b is GestureButton {
                directions != Map::<GestureDirection, Action>::empty()
            } else {
                singles.contains_key(b)
            },
        |b: ButtonId|
            if bindings.contains_key(b) {
                bindings[b]
            } else if b is GestureButton {
                BindingView::Gesture(directions)
            } else {
                BindingView::Single(singles[b])
            },
    )
}

/// The settings that a file's record of a device comes to.
pub open spec fn device_of_record(record: RecordView) -> DeviceView {
    DeviceView {
        identity: record.identity,
        bindings: folded(record.bindings, record.button_bindings, record.gesture_bindings),
        per_app_bindings: record.per_app_bindings,
        dpi_presets: record.dpi_presets,
        dpi: record.dpi,
        lighting: record.lighting,
        smartshift: record.smartshift,
        invert_scroll: record.invert_scroll,
    }
}

impl From<RawDeviceConfig> for DeviceConfig {
    /// Folds the version 1 fields into the one binding map.
    ///
    /// The directions come before the single actions, so that a single action
    /// for the gesture button cannot take the place of its directions.
    fn from(raw: RawDeviceConfig) -> (r: DeviceConfig)
        ensures
            r@ == device_of_record(raw@),
    {
        let ghost whole = raw;
        let mut bindings = raw.bindings;
        let ghost given = bindings@;
        if !raw.gesture_bindings.is_empty() && !bindings.contains_key(&ButtonId::GestureButton) {
            bindings.insert(ButtonId::GestureButton, Binding::Gesture(raw.gesture_bindings));
        }
        let singles = raw.button_bindings;
        let n: usize = singles.len();
        let mut i: usize = 0;
        let ghost target = folded(given, singles@, whole.gesture_bindings@);
        while i < n
            invariant
                i <= n,
                n == singles.keys().len(),
                singles.keys_in_order(),
                target == folded(given, singles@, whole.gesture_bindings@),
                forall|b: ButtonId| #[trigger]
                    bindings@.contains_key(b) <==> target.contains_key(b) && (given.contains_key(b)
                        || b is GestureButton || exists|j: int|
                        0 <= j < i && #[trigger] singles.keys()[j] == b),
                forall|b: ButtonId| #[trigger]
                    bindings@.contains_key(b) ==> bindings@[b] == target[b],
            decreases n - i,
        {
            let (button, action) = singles.entry_at(i);
            let ghost before = bindings@;
            if *button != ButtonId::GestureButton && !bindings.contains_key(button) {
                bindings.insert(*button, Binding::Single(action.clone()));
            }
            assert forall|b: ButtonId| #[trigger] bindings@.contains_key(b) <==> target.contains_key(
                b,
            ) && (given.contains_key(b) || b is GestureButton || exists|j: int|
                0 <= j < i + 1 && #[trigger] singles.keys()[j] == b) by {
                assert(before.contains_key(b) <==> target.contains_key(b) && (given.contains_key(b)
                    || b is GestureButton || exists|j: int|
                    0 <= j < i && #[trigger] singles.keys()[j] == b));
                assert(singles.keys()[i as int] == *button);
            }
            i = i + 1;
        }
        assert forall|b: ButtonId| target.contains_key(b) implies #[trigger] bindings@.contains_key(
            b,
        ) by {
            if !given.contains_key(b) && !(b is GestureButton) {
                assert(singles.keys().to_set().contains(b));
                let j = choose|j: int| 0 <= j < singles.keys().len() && singles.keys()[j] == b;
                assert(singles.keys()[j] == b);
            }
        }
        assert(bindings@ =~= target);
        DeviceConfig {
            identity: raw.identity,
            bindings,
            per_app_bindings: raw.per_app_bindings,
            dpi_presets: raw.dpi_presets,
            dpi: raw.dpi,
            lighting: raw.lighting,
            smartshift: raw.smartshift,
            invert_scroll: raw.invert_scroll,
        }
    }
}

// Two devices with the same settings need not be the same value, so no function of
// the record gives the result of `from`; its own `ensures` says what the result
// stands for.
impl vstd::std_specs::convert::FromSpecImpl<RawDeviceConfig> for DeviceConfig {
    open spec fn obeys_from_spec() -> bool {
        false
    }

    open spec fn from_spec(raw: RawDeviceConfig) -> DeviceConfig {
        choose|r: DeviceConfig| r@ == device_of_record(raw@)
    }
}

// ---------------------------------------------------------------------------
// The whole configuration
// ---------------------------------------------------------------------------

/// Top-level config document.
#[derive(Debug)]
pub struct Config {
    pub schema_version: u32,
    /// Preferences that are not tied to a device.
    pub app_settings: AppSettings,
    /// The key of the device that was last selected. `None` falls back to the
    /// first device.
    pub selected_device: Option<String>,
    /// Settings by physical device.
    pub devices: OrderedMap<String, DeviceConfig>,
}

/// What a [`Config`] stands for.
#[verifier::ext_equal]
pub struct ConfigView {
    pub schema_version: u32,
    pub app_settings: AppSettingsView,
    pub selected_device: Option<Seq<char>>,
    pub devices: Map<Seq<char>, DeviceView>,
}

impl View for Config {
    type V = ConfigView;

    open spec fn view(&self) -> ConfigView {
        ConfigView {
            schema_version: self.schema_version,
            app_settings: self.app_settings@,
            selected_device: text_of(self.selected_device),
            devices: self.devices@,
        }
    }
}

impl ConfigView {
    /// The configuration of a fresh installation.
    pub open spec fn standard() -> ConfigView {
        ConfigView {
            schema_version: SCHEMA_VERSION,
            app_settings: AppSettingsView::standard(),
            selected_device: None,
            devices: Map::empty(),
        }
    }

    /// The settings of a device: nothing configured where it has no entry.
    pub open spec fn device(self, key: Seq<char>) -> DeviceView {
        if self.devices.contains_key(key) {
            self.devices[key]
        } else {
            DeviceView::fresh()
        }
    }

    /// The configuration with `device` as the settings of `key`.
    pub open spec fn with_device(self, key: Seq<char>, device: DeviceView) -> ConfigView {
        ConfigView { devices: self.devices.insert(key, device), ..self }
    }

    /// The configuration with `binding` for one button of one device.
    pub open spec fn with_binding(
        self,
        key: Seq<char>,
        button: ButtonId,
        binding: BindingView,
    ) -> ConfigView {
        self.with_device(key, self.device(key).with_binding(button, binding))
    }

    /// Whether a button is in gesture mode.
    pub open spec fn gestures(self, key: Seq<char>, button: ButtonId) -> bool {
        self.device(key).binding(button) is Gesture
    }

    /// The configuration with a button in gesture mode and every direction bound.
    pub open spec fn gesture_enabled(self, key: Seq<char>, button: ButtonId) -> ConfigView {
        self.with_binding(key, button, self.device(key).binding(button).upgraded().filled())
    }

    /// The configuration with a button out of gesture mode, bound to its click.
    pub open spec fn gesture_disabled(self, key: Seq<char>, button: ButtonId) -> ConfigView {
        if self.gestures(key, button) {
            self.with_binding(
                key,
                button,
                BindingView::Single(self.device(key).binding(button).click()),
            )
        } else {
            self
        }
    }

    /// The configuration with `action` for one direction of a button, which is in
    /// gesture mode from then on.
    pub open spec fn with_direction(
        self,
        key: Seq<char>,
        button: ButtonId,
        direction: GestureDirection,
        action: Action,
    ) -> ConfigView {
        self.with_binding(
            key,
            button,
            BindingView::Gesture(
                self.device(key).binding(button).upgraded()->Gesture_0.insert(direction, action),
            ),
        )
    }
}

impl Clone for Config {
    fn clone(&self) -> (r: Self)
        ensures
            r@ == self@,
    {
        Config {
            schema_version: self.schema_version,
            app_settings: self.app_settings.clone(),
            selected_device: self.selected_device.clone(),
            devices: self.devices.clone(),
        }
    }
}

impl Default for Config {
    fn default() -> (r: Self)
        ensures
            r@ == ConfigView::standard(),
    {
        Config {
            schema_version: SCHEMA_VERSION,
            app_settings: AppSettings::default(),
            selected_device: None,
            devices: OrderedMap::new(),
        }
    }
}

impl Config {
    /// Takes the settings of a device out, or makes fresh ones.
    fn take_device(&mut self, device_key: &str) -> (r: DeviceConfig)
        ensures
            r@ == old(self)@.device(device_key@),
            final(self)@ == (ConfigView {
                devices: old(self)@.devices.remove(device_key@),
                ..old(self)@
            }),
    {
        match self.devices.remove(device_key) {
            Some(device) => device,
            None => DeviceConfig::default(),
        }
    }

    /// Puts the settings of a device back.
    fn put_device(&mut self, device_key: &str, device: DeviceConfig)
        ensures
            final(self)@ == old(self)@.with_device(device_key@, device@),
    {
        self.devices.insert(device_key.to_string(), device);
    }

    /// Returns the bindings stored for `device_key`, or an empty map if the
    /// device has no committed bindings yet.
    #[must_use]
    pub fn bindings_for(&self, device_key: &str) -> (r: OrderedMap<ButtonId, Binding>)
        ensures
            r@ == self@.device(device_key@).bindings,
    {
        match self.devices.get(device_key) {
            Some(d) => d.bindings.clone(),
            None => OrderedMap::new(),
        }
    }

    /// Records `binding` for `button` on `device_key`, creating the device
    /// entry if needed. Replaces the whole binding (use
    /// [`Self::set_gesture_direction`] to edit one direction of a gesture
    /// binding in place).
    pub fn set_binding(&mut self, device_key: &str, button: ButtonId, binding: Binding)
        ensures
            final(self)@ == old(self)@.with_binding(device_key@, button, binding@),
    {
        let ghost before = self@;
        let mut device = self.take_device(device_key);
        device.bindings.insert(button, binding);
        self.put_device(device_key, device);
        assert(self@.devices =~= before.with_binding(device_key@, button, binding@).devices);
    }

    /// Returns the gesture sub-bindings for `device_key`'s gesture button, or an
    /// empty map if none are stored.
    #[must_use]
    pub fn gesture_bindings_for(&self, device_key: &str) -> (r: OrderedMap<
        GestureDirection,
        Action,
    >)
        ensures
            r@ == match self@.device(device_key@).bindings.get(ButtonId::GestureButton) {
                Some(BindingView::Gesture(map)) => map,
                _ => Map::empty(),
            },
    {
        if let Some(d) = self.devices.get(device_key) {
            if let Some(Binding::Gesture(map)) = d.bindings.get(&ButtonId::GestureButton) {
                return map.clone();
            }
        }
        OrderedMap::new()
    }

    /// The binding of a button: the stored one, else the canonical default.
    fn binding_or_default(&self, device_key: &str, button: ButtonId) -> (r: Binding)
        ensures
            r@ == self@.device(device_key@).binding(button),
    {
        if let Some(d) = self.devices.get(device_key) {
            if let Some(binding) = d.bindings.get(&button) {
                return binding.clone();
            }
        }
        default_binding_for(button)
    }

    /// Records `action` for one `direction` of `button`'s gesture binding,
    /// creating the device entry if needed.
    ///
    /// A button with no binding yet starts from its canonical
    /// [`default_binding_for`], so that the gesture button always has a click. A
    /// prior [`Binding::Single`] is upgraded to [`Binding::Gesture`], with its
    /// action as the click.
    pub fn set_gesture_direction(
        &mut self,
        device_key: &str,
        button: ButtonId,
        direction: GestureDirection,
        action: Action,
    )
        ensures
            final(self)@ == old(self)@.with_direction(device_key@, button, direction, action),
    {
        let mut binding = self.ensure_gesture_binding(device_key, button);
        if let Binding::Gesture(map) = binding {
            let mut map = map;
            map.insert(direction, action);
            self.set_binding(device_key, button, Binding::Gesture(map));
        }
    }

    /// The binding of a button as it is in gesture mode: the stored or default
    /// binding, with a single action upgraded. Shared by
    /// [`Self::enable_gesture`] and [`Self::set_gesture_direction`], so that both
    /// promote a button in the same way.
    fn ensure_gesture_binding(&self, device_key: &str, button: ButtonId) -> (r: Binding)
        ensures
            r@ == self@.device(device_key@).binding(button).upgraded(),
            r is Gesture,
    {
        let mut binding = self.binding_or_default(device_key, button);
        binding.upgrade_to_gesture();
        binding
    }

    /// Whether `button` on `device_key` is currently in gesture mode. Any number
    /// of buttons can be.
    ///
    /// A button with no stored binding falls back to its canonical
    /// [`default_binding_for`]: only the dedicated gesture button is in gesture
    /// mode out of the box.
    #[must_use]
    pub fn is_gesture_button(&self, device_key: &str, button: ButtonId) -> (r: bool)
        ensures
            r == self@.gestures(device_key@, button),
    {
        self.binding_or_default(device_key, button).is_gesture()
    }

    /// Every button on `device_key` currently in gesture mode, in
    /// [`ButtonId::ALL`] order.
    #[must_use]
    pub fn gesture_buttons(&self, device_key: &str) -> (r: Vec<ButtonId>)
        ensures
            r@ == ButtonId::ALL@.filter(|b: ButtonId| self@.gestures(device_key@, b)),
    {
        let mut r: Vec<ButtonId> = Vec::new();
        let ghost pred = |b: ButtonId| self@.gestures(device_key@, b);
        let mut i: usize = 0;
        proof {
            reveal(Seq::filter);
            assert(ButtonId::ALL@.take(0).filter(pred) =~= Seq::empty());
        }
        while i < 10
            invariant
                i <= 10,
                pred == (|b: ButtonId| self@.gestures(device_key@, b)),
                r@ == ButtonId::ALL@.take(i as int).filter(pred),
            decreases 10 - i,
        {
            let button = ButtonId::ALL[i];
            proof {
                reveal(Seq::filter);
                assert(ButtonId::ALL@.take(i + 1).drop_last() =~= ButtonId::ALL@.take(i as int));
            }
            if self.is_gesture_button(device_key, button) {
                r.push(button);
            }
            i = i + 1;
        }
        assert(ButtonId::ALL@.take(10) =~= ButtonId::ALL@);
        r
    }

    /// Put `button` into gesture mode on `device_key`, with all five directions
    /// bound: a prior [`Binding::Single`] is kept as the click, directions that
    /// are bound stay, and open ones get their default. Every other button is
    /// left as it is.
    pub fn enable_gesture(&mut self, device_key: &str, button: ButtonId)
        ensures
            final(self)@ == old(self)@.gesture_enabled(device_key@, button),
    {
        let mut binding = self.ensure_gesture_binding(device_key, button);
        binding.fill_gesture_defaults();
        self.set_binding(device_key, button, binding);
    }

    /// Take `button` out of gesture mode on `device_key`, leaving it with its
    /// current plain-click action. Nothing happens when the button is not in
    /// gesture mode, and every other button is left as it is.
    pub fn disable_gesture(&mut self, device_key: &str, button: ButtonId)
        ensures
            final(self)@ == old(self)@.gesture_disabled(device_key@, button),
    {
        let binding = self.binding_or_default(device_key, button);
        if !binding.is_gesture() {
            return;
        }
        let click = binding.click_action();
        self.set_binding(device_key, button, Binding::Single(click));
    }

    /// Resolve the effective binding map for `device_key`, overlaying the
    /// per-app entry for `bundle_id` (if any) on top of the device's bindings. A
    /// per-app override replaces the whole button with a [`Binding::Single`];
    /// everything else falls through.
    ///
    /// Returns an empty map when the device has no recorded bindings yet.
    #[must_use]
    pub fn effective_bindings(&self, device_key: &str, bundle_id: Option<&str>) -> (r: OrderedMap<
        ButtonId,
        Binding,
    >)
        ensures
            r@ == self@.device(device_key@).effective(
                match bundle_id {
                    Some(app) => Some(app@),
                    None => None,
                },
            ),
    {
        let ghost dv = self@.device(device_key@);
        let ghost single = |a: Action| BindingView::Single(a);
        let mut out = self.bindings_for(device_key);
        if let Some(app) = bundle_id {
            let ghost given = out@;
            assert(given.union_prefer_right(
                Map::<ButtonId, Action>::empty().map_values(single),
            ) =~= given);
            if let Some(device) = self.devices.get(device_key) {
                if let Some(overlay) = device.per_app_bindings.get(app) {
                    let n: usize = overlay.len();
                    let mut i: usize = 0;
                    let ghost target = given.union_prefer_right(overlay@.map_values(single));
                    while i < n
                        invariant
                            i <= n,
                            n == overlay.keys().len(),
                            overlay.keys_in_order(),
                            single == (|a: Action| BindingView::Single(a)),
                            target == given.union_prefer_right(overlay@.map_values(single)),
                            forall|b: ButtonId| #[trigger]
                                out@.contains_key(b) <==> given.contains_key(b) || exists|j: int|
                                    0 <= j < i && #[trigger] overlay.keys()[j] == b,
                            forall|b: ButtonId| #[trigger]
                                out@.contains_key(b) ==> out@[b] == if exists|j: int|
                                    0 <= j < i && #[trigger] overlay.keys()[j] == b {
                                    single(overlay@[b])
                                } else {
                                    given[b]
                                },
                        decreases n - i,
                    {
                        let (button, action) = overlay.entry_at(i);
                        let ghost before = out@;
                        out.insert(*button, Binding::Single(action.clone()));
                        assert forall|b: ButtonId| #[trigger] out@.contains_key(b) <==>
                            given.contains_key(b) || exists|j: int|
                            0 <= j < i + 1 && #[trigger] overlay.keys()[j] == b by {
                            assert(before.contains_key(b) <==> given.contains_key(b) || exists|j: int|
                                0 <= j < i && #[trigger] overlay.keys()[j] == b);
                            assert(overlay.keys()[i as int] == *button);
                        }
                        i = i + 1;
                    }
                    assert forall|b: ButtonId| overlay@.contains_key(b) <==> exists|j: int|
                        0 <= j < n && #[trigger] overlay.keys()[j] == b by {
                        assert(overlay.keys().to_set().contains(b) == overlay@.dom().contains(b));
                    }
                    assert(out@ =~= target);
                }
            }
        }
        out
    }

    /// Records a per-app override. Creates the device + app entries as needed;
    /// passing an action of `None` removes the override. App entries without
    /// overrides are pruned.
    pub fn set_per_app_binding(
        &mut self,
        device_key: &str,
        bundle_id: &str,
        button: ButtonId,
        action: Option<Action>,
    )
        ensures
            final(self)@ == old(self)@.with_device(
                device_key@,
                old(self)@.device(device_key@).with_override(bundle_id@, button, action),
            ),
    {
        let ghost before = self@;
        let mut device = self.take_device(device_key);
        let ghost apps = device.per_app_bindings@;
        let mut entries = match device.per_app_bindings.remove(bundle_id) {
            Some(entries) => entries,
            None => OrderedMap::new(),
        };
        match action {
            Some(a) => {
                entries.insert(button, a);
            },
            None => {
                let _ = entries.remove(&button);
            },
        }
        device.per_app_bindings.insert(bundle_id.to_string(), entries);
        assert(device.per_app_bindings@ =~= apps.insert(bundle_id@, entries@));
        device.per_app_bindings.drop_empty();
        self.put_device(device_key, device);
        assert(self@.devices =~= before.with_device(
            device_key@,
            before.device(device_key@).with_override(bundle_id@, button, action),
        ).devices);
    }

    /// Key of the selected device, if any.
    #[must_use]
    pub fn selected_device(&self) -> (r: Option<&str>)
        ensures
            match r {
                Some(key) => self@.selected_device == Some(key@),
                None => self@.selected_device is None,
            },
    {
        match &self.selected_device {
            Some(key) => Some(key.as_str()),
            None => None,
        }
    }

    /// Update the selected device. Pass `None` to clear the selection.
    pub fn set_selected_device(&mut self, key: Option<String>)
        ensures
            final(self)@ == (ConfigView { selected_device: text_of(key), ..old(self)@ }),
    {
        self.selected_device = key;
    }

    /// The ordered DPI preset list for `device_key`, or an empty `Vec` if the
    /// device has none configured yet.
    #[must_use]
    pub fn dpi_presets(&self, device_key: &str) -> (r: Vec<u32>)
        ensures
            r@ == self@.device(device_key@).dpi_presets,
    {
        match self.devices.get(device_key) {
            Some(d) => {
                let r = d.dpi_presets.clone();
                assert(r@ =~= d.dpi_presets@);
                r
            },
            None => Vec::new(),
        }
    }

    /// Replace the DPI preset list for `device_key`. Pass an empty `Vec` to
    /// clear.
    pub fn set_dpi_presets(&mut self, device_key: &str, presets: Vec<u32>)
        ensures
            final(self)@ == old(self)@.with_device(
                device_key@,
                DeviceView { dpi_presets: presets@, ..old(self)@.device(device_key@) },
            ),
    {
        let ghost before = self@;
        let mut device = self.take_device(device_key);
        device.dpi_presets = presets;
        self.put_device(device_key, device);
        assert(self@.devices =~= before.with_device(device_key@, device@).devices);
    }

    /// The last-known [`DeviceIdentity`] for `device_key`, or `None` if none has
    /// been recorded.
    #[must_use]
    pub fn device_identity(&self, device_key: &str) -> (r: Option<&DeviceIdentity>)
        ensures
            match r {
                Some(identity) => self@.device(device_key@).identity == Some(*identity),
                None => self@.device(device_key@).identity is None,
            },
    {
        match self.devices.get(device_key) {
            Some(d) => d.identity.as_ref(),
            None => None,
        }
    }

    /// Record (or refresh) the identity captured for `device_key` while it was
    /// online, creating the device entry if needed.
    pub fn set_device_identity(&mut self, device_key: &str, identity: DeviceIdentity)
        ensures
            final(self)@ == old(self)@.with_device(
                device_key@,
                DeviceView { identity: Some(identity), ..old(self)@.device(device_key@) },
            ),
    {
        let ghost before = self@;
        let mut device = self.take_device(device_key);
        device.identity = Some(identity);
        self.put_device(device_key, device);
        assert(self@.devices =~= before.with_device(device_key@, device@).devices);
    }

    /// Whether `device_key` has a non-empty per-app binding overlay for the
    /// foreground app `app` (bundle id).
    #[must_use]
    pub fn has_app_override(&self, device_key: &str, app: &str) -> (r: bool)
        ensures
            r == (self@.device(device_key@).overlay(app@) != Map::<ButtonId, Action>::empty()),
    {
        match self.devices.get(device_key) {
            Some(d) => match d.per_app_bindings.get(app) {
                Some(overlay) => !overlay.is_empty(),
                None => false,
            },
            None => false,
        }
    }

    /// Every device that has a recorded identity, as `(config_key, identity)`, by
    /// ascending key.
    #[must_use]
    pub fn known_identities(&self) -> (r: Vec<(&str, &DeviceIdentity)>)
        ensures
            forall|i: int|
                0 <= i < r@.len() ==> self@.devices.contains_key((#[trigger] r@[i]).0@)
                    && self@.device(r@[i].0@).identity == Some(*r@[i].1),
            forall|key: Seq<char>| #[trigger]
                self@.device(key).identity is Some ==> exists|i: int|
                    0 <= i < r@.len() && #[trigger] r@[i].0@ == key,
            forall|i: int, j: int|
                0 <= i < j < r@.len() ==> text_before(
                    (#[trigger] r@[i]).0@,
                    (#[trigger] r@[j]).0@,
                ),
    {
        let mut r: Vec<(&str, &DeviceIdentity)> = Vec::new();
        let n: usize = self.devices.len();
        let mut i: usize = 0;
        while i < n
            invariant
                i <= n,
                n == self.devices.keys().len(),
                self.devices.keys_in_order(),
                forall|k: int|
                    0 <= k < r@.len() ==> self@.devices.contains_key((#[trigger] r@[k]).0@)
                        && self@.device(r@[k].0@).identity == Some(*r@[k].1),
                forall|k: int|
                    0 <= k < r@.len() ==> exists|j: int|
                        0 <= j < i && #[trigger] self.devices.keys()[j] == (#[trigger] r@[k]).0@,
                forall|j: int|
                    0 <= j < i && self@.device(#[trigger] self.devices.keys()[j]).identity is Some
                        ==> exists|k: int|
                        0 <= k < r@.len() && #[trigger] r@[k].0@ == self.devices.keys()[j],
                forall|k: int, l: int|
                    0 <= k < l < r@.len() ==> text_before(
                        (#[trigger] r@[k]).0@,
                        (#[trigger] r@[l]).0@,
                    ),
            decreases n - i,
        {
            let (key, device) = self.devices.entry_at(i);
            let ghost before = r@;
            if let Some(identity) = &device.identity {
                r.push((key.as_str(), identity));
                assert(r@[before.len() as int].0@ == self.devices.keys()[i as int]);
            }
            assert(forall|k: int| 0 <= k < before.len() ==> r@[k] == #[trigger] before[k]);
            i = i + 1;
        }
        assert forall|key: Seq<char>| #[trigger] self@.device(key).identity is Some implies exists|
            k: int,
        | 0 <= k < r@.len() && #[trigger] r@[k].0@ == key by {
            assert(self.devices.keys().to_set().contains(key));
            let j = choose|j: int| 0 <= j < n && self.devices.keys()[j] == key;
            assert(self.devices.keys()[j] == key);
        }
        r
    }

    /// The lighting config for `device_key`, or `None` if unset.
    #[must_use]
    pub fn lighting(&self, device_key: &str) -> (r: Option<Lighting>)
        ensures
            r == self@.device(device_key@).lighting,
    {
        match self.devices.get(device_key) {
            Some(d) => d.lighting.clone(),
            None => None,
        }
    }

    /// Replace the lighting config for `device_key`.
    pub fn set_lighting(&mut self, device_key: &str, lighting: Lighting)
        ensures
            final(self)@ == old(self)@.with_device(
                device_key@,
                DeviceView { lighting: Some(lighting), ..old(self)@.device(device_key@) },
            ),
    {
        let ghost before = self@;
        let mut device = self.take_device(device_key);
        device.lighting = Some(lighting);
        self.put_device(device_key, device);
        assert(self@.devices =~= before.with_device(device_key@, device@).devices);
    }

    /// The committed sensor DPI for `device_key`, or `None` if never set.
    #[must_use]
    pub fn dpi(&self, device_key: &str) -> (r: Option<u32>)
        ensures
            r == self@.device(device_key@).dpi,
    {
        match self.devices.get(device_key) {
            Some(d) => d.dpi,
            None => None,
        }
    }

    /// Record the committed sensor DPI for `device_key`.
    pub fn set_dpi(&mut self, device_key: &str, dpi: u32)
        ensures
            final(self)@ == old(self)@.with_device(
                device_key@,
                DeviceView { dpi: Some(dpi), ..old(self)@.device(device_key@) },
            ),
    {
        let ghost before = self@;
        let mut device = self.take_device(device_key);
        device.dpi = Some(dpi);
        self.put_device(device_key, device);
        assert(self@.devices =~= before.with_device(device_key@, device@).devices);
    }

    /// The SmartShift wheel config for `device_key`, or `None` if never set.
    #[must_use]
    pub fn smartshift(&self, device_key: &str) -> (r: Option<SmartShift>)
        ensures
            r == self@.device(device_key@).smartshift,
    {
        match self.devices.get(device_key) {
            Some(d) => d.smartshift,
            None => None,
        }
    }

    /// Record the SmartShift wheel config for `device_key`.
    pub fn set_smartshift(&mut self, device_key: &str, smartshift: SmartShift)
        ensures
            final(self)@ == old(self)@.with_device(
                device_key@,
                DeviceView { smartshift: Some(smartshift), ..old(self)@.device(device_key@) },
            ),
    {
        let ghost before = self@;
        let mut device = self.take_device(device_key);
        device.smartshift = Some(smartshift);
        self.put_device(device_key, device);
        assert(self@.devices =~= before.with_device(device_key@, device@).devices);
    }

    /// Whether `device_key`'s scroll wheel is inverted. `false` (the native
    /// direction) for an unconfigured or absent device.
    #[must_use]
    pub fn invert_scroll(&self, device_key: &str) -> (r: bool)
        ensures
            r == self@.device(device_key@).invert_scroll,
    {
        match self.devices.get(device_key) {
            Some(d) => d.invert_scroll,
            None => false,
        }
    }

    /// Set whether `device_key`'s scroll wheel is inverted.
    pub fn set_invert_scroll(&mut self, device_key: &str, invert: bool)
        ensures
            final(self)@ == old(self)@.with_device(
                device_key@,
                DeviceView { invert_scroll: invert, ..old(self)@.device(device_key@) },
            ),
    {
        let ghost before = self@;
        let mut device = self.take_device(device_key);
        device.invert_scroll = invert;
        self.put_device(device_key, device);
        assert(self@.devices =~= before.with_device(device_key@, device@).devices);
    }
}

// ---------------------------------------------------------------------------
// Laws
// ---------------------------------------------------------------------------

/// Reading an older file never loses what its current shape says: a button that
/// has an entry there keeps it, whatever the version 1 fields hold.
pub proof fn law_current_shape_wins(
    bindings: Map<ButtonId, BindingView>,
    singles: Map<ButtonId, Action>,
    directions: Map<GestureDirection, Action>,
    button: ButtonId,
)
    requires
        bindings.contains_key(button),
    ensures
        folded(bindings, singles, directions).contains_key(button),
        folded(bindings, singles, directions)[button] == bindings[button],
{
}

/// The version 1 directions become the gesture button's binding, whether or not
/// the file also has a version 1 single action for that button.
pub proof fn law_directions_win_over_single(
    bindings: Map<ButtonId, BindingView>,
    singles: Map<ButtonId, Action>,
    directions: Map<GestureDirection, Action>,
)
    requires
        !bindings.contains_key(ButtonId::GestureButton),
        directions != Map::<GestureDirection, Action>::empty(),
    ensures
        folded(bindings, singles, directions).get(ButtonId::GestureButton) == Some(
            BindingView::Gesture(directions),
        ),
{
}

/// A version 1 single action for the gesture button is dropped: without
/// directions, the button is left to its default.
pub proof fn law_lone_gesture_single_is_dropped(
    bindings: Map<ButtonId, BindingView>,
    singles: Map<ButtonId, Action>,
)
    ensures
        folded(bindings, singles, Map::empty()).get(ButtonId::GestureButton) == bindings.get(
            ButtonId::GestureButton,
        ),
{
}

/// A version 1 single action for any other button is kept, where the current
/// shape has nothing for it.
pub proof fn law_legacy_singles_are_kept(
    bindings: Map<ButtonId, BindingView>,
    singles: Map<ButtonId, Action>,
    directions: Map<GestureDirection, Action>,
    button: ButtonId,
)
    requires
        !(button is GestureButton),
        !bindings.contains_key(button),
    ensures
        folded(bindings, singles, directions).get(button) == match singles.get(button) {
            Some(action) => Some(BindingView::Single(action)),
            None => None,
        },
{
}

/// Migration happens once: a device that has no version 1 fields reads as it is,
/// so what was migrated and written reads back unchanged.
pub proof fn law_migration_is_idempotent(
    bindings: Map<ButtonId, BindingView>,
    singles: Map<ButtonId, Action>,
    directions: Map<GestureDirection, Action>,
)
    ensures
        folded(bindings, Map::empty(), Map::empty()) == bindings,
        folded(folded(bindings, singles, directions), Map::empty(), Map::empty()) == folded(
            bindings,
            singles,
            directions,
        ),
        folded(folded(bindings, singles, directions), singles, directions) == folded(
            bindings,
            singles,
            directions,
        ),
{
    assert(folded(bindings, Map::empty(), Map::empty()) =~= bindings);
    let once = folded(bindings, singles, directions);
    assert(folded(once, Map::empty(), Map::empty()) =~= once);
    assert(folded(once, singles, directions) =~= once);
}

/// What is stored for a device is what is read for it, and no other device
/// notices. Every setter stores in this way.
pub proof fn law_devices_are_independent(
    config: ConfigView,
    key: Seq<char>,
    device: DeviceView,
    other: Seq<char>,
)
    ensures
        config.with_device(key, device).device(key) == device,
        other != key ==> config.with_device(key, device).device(other) == config.device(other),
        config.with_device(key, device).selected_device == config.selected_device,
        config.with_device(key, device).app_settings == config.app_settings,
        config.with_device(key, device).schema_version == config.schema_version,
{
}

/// A binding that was set is the button's binding, and nothing else about the
/// configuration changes: no other button, no other device, no other setting.
pub proof fn law_set_binding(
    config: ConfigView,
    key: Seq<char>,
    button: ButtonId,
    binding: BindingView,
    other_key: Seq<char>,
    other_button: ButtonId,
)
    ensures
        config.with_binding(key, button, binding).device(key).binding(button) == binding,
        (other_key != key || other_button != button) ==> config.with_binding(
            key,
            button,
            binding,
        ).device(other_key).binding(other_button) == config.device(other_key).binding(other_button),
        config.with_binding(key, button, binding).device(key) == (DeviceView {
            bindings: config.device(key).bindings.insert(button, binding),
            ..config.device(key)
        }),
{
}

/// On a device with nothing stored, the dedicated gesture button is in gesture
/// mode and no other button is.
pub proof fn law_fresh_device_gestures(button: ButtonId)
    ensures
        DeviceView::fresh().binding(button) is Gesture <==> button is GestureButton,
{
}

/// Filtering keeps the order of buttons.
proof fn lemma_filter_keeps_order(buttons: Seq<ButtonId>, pred: spec_fn(ButtonId) -> bool)
    requires
        forall|i: int, j: int|
            0 <= i < j < buttons.len() ==> (#[trigger] buttons[i]).rank() < (
            #[trigger] buttons[j]).rank(),
    ensures
        forall|i: int, j: int|
            0 <= i < j < buttons.filter(pred).len() ==> (#[trigger] buttons.filter(pred)[i]).rank()
                < (#[trigger] buttons.filter(pred)[j]).rank(),
        forall|i: int|
            0 <= i < buttons.filter(pred).len() ==> buttons.contains(
                #[trigger] buttons.filter(pred)[i],
            ),
    decreases buttons.len(),
{
    reveal(Seq::filter);
    if buttons.len() > 0 {
        let rest = buttons.drop_last();
        lemma_filter_keeps_order(rest, pred);
        assert forall|i: int| 0 <= i < buttons.filter(pred).len() implies buttons.contains(
            #[trigger] buttons.filter(pred)[i],
        ) by {
            if i < rest.filter(pred).len() {
                let k = choose|k: int| 0 <= k < rest.len() && rest[k] == rest.filter(pred)[i];
                assert(buttons[k] == buttons.filter(pred)[i]);
            } else {
                assert(buttons[buttons.len() - 1] == buttons.filter(pred)[i]);
            }
        }
        assert forall|i: int, j: int| 0 <= i < j < buttons.filter(pred).len() implies (
        #[trigger] buttons.filter(pred)[i]).rank() < (#[trigger] buttons.filter(pred)[j]).rank() by {
            let kept = rest.filter(pred);
            assert(buttons.filter(pred)[i] == kept[i]);
            if j < kept.len() {
                assert(buttons.filter(pred)[j] == kept[j]);
            } else {
                let k = choose|k: int| 0 <= k < rest.len() && rest[k] == kept[i];
                assert(buttons[k].rank() < buttons[buttons.len() - 1].rank());
            }
        }
    }
}

/// A button is among the gesture buttons exactly when it is in gesture mode. The
/// gesture buttons come in the order of [`ButtonId::ALL`], each of them once.
pub proof fn law_gesture_buttons(config: ConfigView, key: Seq<char>, button: ButtonId)
    ensures
        ({
            let listed = ButtonId::ALL@.filter(|b: ButtonId| config.gestures(key, b));
            &&& listed.contains(button) <==> config.gestures(key, button)
            &&& forall|i: int, j: int|
                0 <= i < j < listed.len() ==> (#[trigger] listed[i]).rank() < (
                #[trigger] listed[j]).rank()
        }),
{
    broadcast use vstd::seq_lib::group_filter_ensures;

    let pred = |b: ButtonId| config.gestures(key, b);
    law_all_buttons_listed(button);
    lemma_filter_keeps_order(ButtonId::ALL@, pred);
    assert(pred(ButtonId::ALL@[button.rank()]) == config.gestures(key, button));
}

/// Enabling gestures puts the button in gesture mode with every direction bound,
/// and keeps what was bound: a single action is the click from then on, and a
/// bound direction stays as it is. Other buttons and other devices keep their
/// bindings, and enabling again changes nothing.
pub proof fn law_enable_gesture(
    config: ConfigView,
    key: Seq<char>,
    button: ButtonId,
    direction: GestureDirection,
    other_key: Seq<char>,
    other_button: ButtonId,
)
    ensures
        ({
            let before = config.device(key).binding(button);
            let after = config.gesture_enabled(key, button);
            &&& after.gestures(key, button)
            &&& after.device(key).binding(button).direction(direction) is Some
            &&& before is Single ==> after.device(key).binding(button).click() == before.click()
            &&& before.direction(direction) is Some ==> after.device(key).binding(button).direction(
                direction,
            ) == before.direction(direction)
            &&& (other_key != key || other_button != button) ==> after.device(other_key).binding(
                other_button,
            ) == config.device(other_key).binding(other_button)
            &&& after.gesture_enabled(key, button) == after
        }),
{
    let after = config.gesture_enabled(key, button);
    let bound = after.device(key).binding(button);
    assert(bound.upgraded().filled() =~= bound) by {
        assert(bound->Gesture_0 =~= default_gesture_map().union_prefer_right(bound->Gesture_0));
    }
    assert(after.gesture_enabled(key, button).devices[key].bindings =~= after.devices[key].bindings);
    assert(after.gesture_enabled(key, button).devices =~= after.devices);
}

/// Disabling gestures takes the button out of gesture mode and leaves its click.
/// It changes nothing for a button that is not in gesture mode, nor for other
/// buttons and devices, and disabling again changes nothing.
pub proof fn law_disable_gesture(
    config: ConfigView,
    key: Seq<char>,
    button: ButtonId,
    other_key: Seq<char>,
    other_button: ButtonId,
)
    ensures
        ({
            let after = config.gesture_disabled(key, button);
            &&& !after.gestures(key, button)
            &&& after.device(key).binding(button) is Single
            &&& after.device(key).binding(button).click() == config.device(key).binding(
                button,
            ).click()
            &&& !config.gestures(key, button) ==> after == config
            &&& (other_key != key || other_button != button) ==> after.device(other_key).binding(
                other_button,
            ) == config.device(other_key).binding(other_button)
            &&& after.gesture_disabled(key, button) == after
        }),
{
}

/// Turning gestures on and off again gives a single-action button its action
/// back. Where that action was stored, the whole configuration is as before.
pub proof fn law_enable_then_disable(config: ConfigView, key: Seq<char>, button: ButtonId)
    requires
        !config.gestures(key, button),
    ensures
        config.gesture_enabled(key, button).gesture_disabled(key, button).device(key).binding(
            button,
        ) == config.device(key).binding(button),
        config.device(key).bindings.contains_key(button) ==> config.gesture_enabled(
            key,
            button,
        ).gesture_disabled(key, button) == config,
{
    let back = config.gesture_enabled(key, button).gesture_disabled(key, button);
    if config.device(key).bindings.contains_key(button) {
        assert(back.device(key).bindings =~= config.device(key).bindings);
        assert(back.devices =~= config.devices);
    }
}

/// Setting one direction binds it, puts the button in gesture mode and keeps the
/// other directions. A button that had a single action, or nothing stored, still
/// has a click afterwards.
pub proof fn law_set_direction(
    config: ConfigView,
    key: Seq<char>,
    button: ButtonId,
    direction: GestureDirection,
    action: Action,
    other: GestureDirection,
)
    ensures
        ({
            let before = config.device(key).binding(button);
            let after = config.with_direction(key, button, direction, action).device(key).binding(
                button,
            );
            &&& after is Gesture
            &&& after.direction(direction) == Some(action)
            &&& other != direction && before is Gesture ==> after.direction(other)
                == before.direction(other)
            &&& before is Single && !(direction is Click) ==> after.click() == before.click()
            &&& before is Single || !config.device(key).bindings.contains_key(button)
                ==> after.direction(GestureDirection::Click) is Some
        }),
{
}

/// An override takes effect in its own app and for its own button only: the
/// device's own bindings, other buttons, other apps and the view without an app
/// are as before.
pub proof fn law_override_is_scoped(
    device: DeviceView,
    app: Seq<char>,
    button: ButtonId,
    action: Action,
    other_app: Seq<char>,
    other_button: ButtonId,
)
    ensures
        ({
            let after = device.with_override(app, button, Some(action));
            &&& after.effective(Some(app)).get(button) == Some(BindingView::Single(action))
            &&& other_button != button ==> after.effective(Some(app)).get(other_button)
                == device.effective(Some(app)).get(other_button)
            &&& other_app != app ==> after.effective(Some(other_app)) == device.effective(
                Some(other_app),
            )
            &&& after.effective(None) == device.effective(None)
            &&& after.bindings == device.bindings
        }),
{
    let after = device.with_override(app, button, Some(action));
    let entries = device.overlay(app).insert(button, action);
    assert(entries.contains_key(button));
    assert(after.overlay(app) == entries);
    if other_app != app {
        assert(after.overlay(other_app) =~= device.overlay(other_app));
    }
}

/// Removing an override makes the button fall through again in that app: to what
/// it was before an override was set.
pub proof fn law_override_removal(
    device: DeviceView,
    app: Seq<char>,
    button: ButtonId,
    action: Action,
)
    ensures
        device.with_override(app, button, None).effective(Some(app)).get(button)
            == device.bindings.get(button),
        !device.overlay(app).contains_key(button) ==> device.with_override(
            app,
            button,
            Some(action),
        ).with_override(app, button, None).effective(Some(app)) == device.effective(Some(app)),
{
    let gone = device.with_override(app, button, None);
    assert(gone.overlay(app) =~= device.overlay(app).remove(button));
    if !device.overlay(app).contains_key(button) {
        let set = device.with_override(app, button, Some(action));
        assert(device.overlay(app).insert(button, action).contains_key(button));
        let back = set.with_override(app, button, None);
        assert(set.overlay(app) == device.overlay(app).insert(button, action));
        assert(back.overlay(app) =~= set.overlay(app).remove(button));
        assert(back.overlay(app) =~= device.overlay(app));
    }
}

/// After an override was set or removed, no app is left with an empty overlay.
pub proof fn law_no_empty_overlays(
    device: DeviceView,
    app: Seq<char>,
    button: ButtonId,
    action: Option<Action>,
    other_app: Seq<char>,
)
    ensures
        device.with_override(app, button, action).per_app_bindings.contains_key(other_app)
            ==> device.with_override(app, button, action).overlay(other_app) != Map::<
            ButtonId,
            Action,
        >::empty(),
{
}

/// Reading an older record carries every setting over: whatever shape the bindings
/// are in, the identity, the app overlays, the presets, the DPI, the lighting, the
/// wheel and the scroll direction are those of the record.
pub proof fn law_migration_keeps_settings(record: RecordView)
    ensures
        device_of_record(record).identity == record.identity,
        device_of_record(record).per_app_bindings == record.per_app_bindings,
        device_of_record(record).dpi_presets == record.dpi_presets,
        device_of_record(record).dpi == record.dpi,
        device_of_record(record).lighting == record.lighting,
        device_of_record(record).smartshift == record.smartshift,
        device_of_record(record).invert_scroll == record.invert_scroll,
{
}

/// What a record of any version binds a button to: its current binding if there is
/// one; else, for the gesture button, the version 1 directions if there are any; else,
/// for any other button, its version 1 action.
pub proof fn law_migrated_binding(record: RecordView, button: ButtonId)
    ensures
        record.bindings.contains_key(button) ==> device_of_record(record).bindings.get(button)
            == Some(record.bindings[button]),
        !record.bindings.contains_key(button) && button == ButtonId::GestureButton && (exists|
            d: GestureDirection,
        | #[trigger]
            record.gesture_bindings.contains_key(d)) ==> device_of_record(record).bindings.get(
            button,
        ) == Some(BindingView::Gesture(record.gesture_bindings)),
        !record.bindings.contains_key(button) && button == ButtonId::GestureButton && (forall|
            d: GestureDirection,
        |
            !(#[trigger] record.gesture_bindings.contains_key(d))) ==> device_of_record(
            record,
        ).bindings.get(button) is None,
        !record.bindings.contains_key(button) && button != ButtonId::GestureButton
            && record.button_bindings.contains_key(button) ==> device_of_record(
            record,
        ).bindings.get(button) == Some(BindingView::Single(record.button_bindings[button])),
        !record.bindings.contains_key(button) && button != ButtonId::GestureButton
            && !record.button_bindings.contains_key(button) ==> device_of_record(
            record,
        ).bindings.get(button) is None,
{
    let directions = record.gesture_bindings;
    if forall|d: GestureDirection| !(#[trigger] directions.contains_key(d)) {
        assert(directions =~= Map::<GestureDirection, Action>::empty());
    }
}

/// The settings of a fresh installation, the limits of the thumb wheel and the
/// version that is written.
pub proof fn law_fresh_installation(key: Seq<char>)
    ensures
        ({
            let settings = ConfigView::standard().app_settings;
            &&& settings == AppSettingsView::standard()
            &&& !settings.launch_at_login && !settings.check_for_updates
                && !settings.auto_install_updates && !settings.update_prompt_seen
            &&& settings.show_in_menu_bar && settings.auto_download_assets
            &&& settings.thumbwheel_sensitivity == 14
            &&& settings.appearance == Appearance::System
            &&& settings.language is None && settings.theme_light is None
                && settings.theme_dark is None && settings.ui_radius is None
        }),
        ConfigView::standard().schema_version == 3,
        ConfigView::standard().selected_device is None,
        !ConfigView::standard().devices.contains_key(key),
        SCHEMA_VERSION == 3,
        DEFAULT_THUMBWHEEL_SENSITIVITY == 14,
        MIN_THUMBWHEEL_SENSITIVITY == 1,
        MAX_THUMBWHEEL_SENSITIVITY == 100,
{
}

/// A device without an entry has nothing configured, and a button without an entry
/// has its default. One with an entry has what is stored.
pub proof fn law_nothing_stored(
    config: ConfigView,
    key: Seq<char>,
    button: ButtonId,
    app: Seq<char>,
)
    ensures
        config.devices.contains_key(key) ==> config.device(key) == config.devices[key],
        !config.devices.contains_key(key) ==> ({
            let device = config.device(key);
            &&& !device.bindings.contains_key(button)
            &&& !device.per_app_bindings.contains_key(app)
            &&& device.identity is None && device.dpi is None && device.lighting is None
                && device.smartshift is None
            &&& device.dpi_presets.len() == 0
            &&& !device.invert_scroll
        }),
        config.device(key).bindings.contains_key(button) ==> config.device(key).binding(button)
            == config.device(key).bindings[button],
        !config.device(key).bindings.contains_key(button) ==> config.device(key).binding(button)
            == default_binding_view(button),
        config.gestures(key, button) <==> if config.device(key).bindings.contains_key(button) {
            config.device(key).bindings[button] is Gesture
        } else {
            button == ButtonId::GestureButton
        },
{
}

/// What a button does while an app is in the foreground: the action that the app lists
/// for it, as a single one, else what the device has stored. Without an app in the
/// foreground it is what the device has stored.
pub proof fn law_effective_binding(device: DeviceView, app: Seq<char>, button: ButtonId)
    ensures
        device.effective(None) == device.bindings,
        device.per_app_bindings.contains_key(app) && device.per_app_bindings[app].contains_key(
            button,
        ) ==> device.effective(Some(app)).get(button) == Some(
            BindingView::Single(device.per_app_bindings[app][button]),
        ),
        !(device.per_app_bindings.contains_key(app) && device.per_app_bindings[app].contains_key(
            button,
        )) ==> device.effective(Some(app)).get(button) == device.bindings.get(button),
        device.per_app_bindings.contains_key(app) ==> device.overlay(app)
            == device.per_app_bindings[app],
        !device.per_app_bindings.contains_key(app) ==> !device.overlay(app).contains_key(button),
{
}

/// Setting an override and removing one reach equally far: one button of one app. Every
/// other button of that app, every other app and every other setting of the device are
/// as before.
pub proof fn law_override_reaches_one_button(
    device: DeviceView,
    app: Seq<char>,
    button: ButtonId,
    action: Option<Action>,
    other_app: Seq<char>,
    other_button: ButtonId,
)
    ensures
        ({
            let after = device.with_override(app, button, action);
            &&& after.overlay(app).get(button) == action
            &&& after.effective(Some(app)).get(button) == match action {
                Some(action) => Some(BindingView::Single(action)),
                None => device.bindings.get(button),
            }
            &&& other_button != button ==> after.overlay(app).get(other_button) == device.overlay(
                app,
            ).get(other_button)
            &&& other_button != button ==> after.effective(Some(app)).get(other_button)
                == device.effective(Some(app)).get(other_button)
            &&& other_app != app ==> after.overlay(other_app) == device.overlay(other_app)
            &&& other_app != app ==> after.effective(Some(other_app)) == device.effective(
                Some(other_app),
            )
            &&& after.per_app_bindings.contains_key(other_app) <==> after.overlay(other_app)
                != Map::<ButtonId, Action>::empty()
            &&& after.effective(None) == device.effective(None)
            &&& after == (DeviceView { per_app_bindings: after.per_app_bindings, ..device })
        }),
{
    let after = device.with_override(app, button, action);
    let entries = match action {
        Some(action) => device.overlay(app).insert(button, action),
        None => device.overlay(app).remove(button),
    };
    assert(after.overlay(app) =~= entries);
    if other_app != app {
        assert(after.overlay(other_app) =~= device.overlay(other_app));
    }
}

/// Putting a button into gesture mode, taking it out and binding one direction all
/// touch that button's binding alone: what is stored for other buttons, every other
/// setting of the device, other devices and the rest of the configuration stay.
pub proof fn law_gesture_edits_touch_one_binding(
    config: ConfigView,
    key: Seq<char>,
    button: ButtonId,
    direction: GestureDirection,
    action: Action,
    other_key: Seq<char>,
    other_button: ButtonId,
)
    ensures
        forall|after: ConfigView|
            after == config.gesture_enabled(key, button) || after == config.gesture_disabled(
                key,
                button,
            ) || after == config.with_direction(key, button, direction, action) ==> {
                &&& other_button != button ==> (#[trigger] after.device(key)).bindings.get(
                    other_button,
                ) == config.device(key).bindings.get(other_button)
                &&& after.device(key) == (DeviceView {
                    bindings: after.device(key).bindings,
                    ..config.device(key)
                })
                &&& other_key != key ==> after.device(other_key) == config.device(other_key)
                &&& after == (ConfigView { devices: after.devices, ..config })
            },
{
}

/// Gesture mode starts from what the button did: its single action is the click, a
/// direction that was bound stays, and every other direction gets its default.
pub proof fn law_enabled_directions(
    config: ConfigView,
    key: Seq<char>,
    button: ButtonId,
    direction: GestureDirection,
)
    ensures
        ({
            let before = config.device(key).binding(button);
            let after = config.gesture_enabled(key, button).device(key).binding(button);
            after.direction(direction) == match before {
                BindingView::Single(action) => if direction == GestureDirection::Click {
                    Some(action)
                } else {
                    Some(default_gesture_action(direction))
                },
                BindingView::Gesture(map) => if map.contains_key(direction) {
                    Some(map[direction])
                } else {
                    Some(default_gesture_action(direction))
                },
            }
        }),
{
}

/// Out of gesture mode a button does what its click did, or nothing where its click was
/// not bound.
pub proof fn law_disabled_action(
    config: ConfigView,
    key: Seq<char>,
    button: ButtonId,
    map: Map<GestureDirection, Action>,
)
    requires
        config.device(key).binding(button) == BindingView::Gesture(map),
    ensures
        config.gesture_disabled(key, button).device(key).bindings.get(button) == Some(
            BindingView::Single(
                if map.contains_key(GestureDirection::Click) {
                    map[GestureDirection::Click]
                } else {
                    Action::DoNothing
                },
            ),
        ),
{
}

/// Binding one direction leaves every other direction as the button had it: a single
/// action counts as the click, and nothing else is filled in.
pub proof fn law_bound_directions(
    config: ConfigView,
    key: Seq<char>,
    button: ButtonId,
    direction: GestureDirection,
    action: Action,
    other: GestureDirection,
)
    ensures
        ({
            let before = config.device(key).binding(button);
            let after = config.with_direction(key, button, direction, action).device(key);
            &&& after.bindings.contains_key(button)
            &&& after.bindings[button] is Gesture
            &&& after.bindings[button].direction(direction) == Some(action)
            &&& other != direction ==> after.bindings[button].direction(other) == match before {
                BindingView::Single(single) => if other == GestureDirection::Click {
                    Some(single)
                } else {
                    None
                },
                BindingView::Gesture(map) => map.get(other),
            }
        }),
{
}

/// Preferences show all that they hold.
pub proof fn law_settings_show_every_field(settings: AppSettings)
    ensures
        settings@.launch_at_login == settings.launch_at_login,
        settings@.check_for_updates == settings.check_for_updates,
        settings@.auto_install_updates == settings.auto_install_updates,
        settings@.update_prompt_seen == settings.update_prompt_seen,
        settings@.show_in_menu_bar == settings.show_in_menu_bar,
        settings@.auto_download_assets == settings.auto_download_assets,
        settings@.thumbwheel_sensitivity == settings.thumbwheel_sensitivity,
        settings@.appearance == settings.appearance,
        settings@.ui_radius == settings.ui_radius,
        settings@.language == match settings.language {
            Some(text) => Some(text@),
            None => None,
        },
        settings@.theme_light == match settings.theme_light {
            Some(text) => Some(text@),
            None => None,
        },
        settings@.theme_dark == match settings.theme_dark {
            Some(text) => Some(text@),
            None => None,
        },
{
}

/// A device and a record of one show all that they hold.
pub proof fn law_devices_show_every_field(device: DeviceConfig, record: RawDeviceConfig)
    ensures
        device@.identity == device.identity,
        device@.bindings == device.bindings@,
        device@.per_app_bindings == device.per_app_bindings@,
        device@.dpi_presets == device.dpi_presets@,
        device@.dpi == device.dpi,
        device@.lighting == device.lighting,
        device@.smartshift == device.smartshift,
        device@.invert_scroll == device.invert_scroll,
        record@.identity == record.identity,
        record@.bindings == record.bindings@,
        record@.button_bindings == record.button_bindings@,
        record@.gesture_bindings == record.gesture_bindings@,
        record@.per_app_bindings == record.per_app_bindings@,
        record@.dpi_presets == record.dpi_presets@,
        record@.dpi == record.dpi,
        record@.lighting == record.lighting,
        record@.smartshift == record.smartshift,
        record@.invert_scroll == record.invert_scroll,
{
}

/// An optional string shows the text that it holds.
pub proof fn law_text_of(s: String)
    ensures
        text_of(Some(s)) == Some(s@),
        text_of(None) is None,
{
}

/// A configuration shows all that it holds.
pub proof fn law_config_shows_every_field(config: Config)
    ensures
        config@.schema_version == config.schema_version,
        config@.app_settings == config.app_settings@,
        config@.devices == config.devices@,
        config@.selected_device == match config.selected_device {
            Some(key) => Some(key@),
            None => None,
        },
{
}

} // verus!
