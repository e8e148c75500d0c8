//! The rebindable buttons of a mouse, the actions that each of them can be
//! bound to, and what a button does when nothing else is configured.
//!
//! The names under which buttons, directions and actions are stored are those of
//! [`crate::stored`]: renaming a variant here does not change a file.
use vstd::prelude::*;
use crate::chord::KeyCombo;
use crate::ordered_map::{KeyOrder, MapKey, OrderedMap, Replica};
use crate::text::push_numeral;

verus! {

// ---------------------------------------------------------------------------
// Buttons
// ---------------------------------------------------------------------------

/// One of the user-rebindable hotspots of a mouse, from front to side.
#[derive(Clone, Copy, Debug, PartialEq, Eq, Hash, PartialOrd, Ord, Structural)]
pub enum ButtonId {
    LeftClick,
    RightClick,
    MiddleClick,
    Back,
    Forward,
    /// The mode-shift button under the wheel, typically used for SmartShift or
    /// for cycling through DPI presets.
    DpiToggle,
    /// The click of the horizontal thumb wheel.
    Thumbwheel,
    /// Rotating the thumb wheel "up" (positive rotation).
    ThumbwheelScrollUp,
    /// Rotating the thumb wheel "down" (negative rotation).
    ThumbwheelScrollDown,
    /// The dedicated HID++ gesture button of MX-line devices.
    GestureButton,
}

impl ButtonId {
    /// Every button, in the order of the physical layout.
    pub const ALL: [ButtonId; 10] = [
        ButtonId::LeftClick,
        ButtonId::RightClick,
        ButtonId::MiddleClick,
        ButtonId::Back,
        ButtonId::Forward,
        ButtonId::DpiToggle,
        ButtonId::Thumbwheel,
        ButtonId::ThumbwheelScrollUp,
        ButtonId::ThumbwheelScrollDown,
        ButtonId::GestureButton,
    ];

    /// The place of the button in [`ButtonId::ALL`].
    pub open spec fn rank(self) -> int {
        match self {
            ButtonId::LeftClick => 0,
            ButtonId::RightClick => 1,
            ButtonId::MiddleClick => 2,
            ButtonId::Back => 3,
            ButtonId::Forward => 4,
            ButtonId::DpiToggle => 5,
            ButtonId::Thumbwheel => 6,
            ButtonId::ThumbwheelScrollUp => 7,
            ButtonId::ThumbwheelScrollDown => 8,
            ButtonId::GestureButton => 9,
        }
    }

    /// The buttons that the OS hook remaps.
    pub open spec fn os_hooked(self) -> bool {
        self is MiddleClick || self is Back || self is Forward
    }

    /// The text that stands for the button in popovers and tooltips.
    pub open spec fn label_text(self) -> Seq<char> {
        match self {
            ButtonId::LeftClick => "Left Click"@,
            ButtonId::RightClick => "Right Click"@,
            ButtonId::MiddleClick => "Middle Click"@,
            ButtonId::Back => "Back"@,
            ButtonId::Forward => "Forward"@,
            ButtonId::DpiToggle => "DPI Toggle"@,
            ButtonId::Thumbwheel => "Thumb Wheel"@,
            ButtonId::ThumbwheelScrollUp => "Thumb Wheel Up"@,
            ButtonId::ThumbwheelScrollDown => "Thumb Wheel Down"@,
            ButtonId::GestureButton => "Gesture Button"@,
        }
    }

    /// Whether the OS hook remaps this button: Middle, Back or Forward. The
    /// primary clicks always pass through, and the DPI, thumb and dedicated
    /// gesture controls are captured over HID++ instead, out of the hook's
    /// sight.
    #[must_use]
    pub fn is_os_hook_button(self) -> (r: bool)
        ensures
            r == self.os_hooked(),
    {
        matches!(self, ButtonId::MiddleClick | ButtonId::Back | ButtonId::Forward)
    }

    /// Human-readable label for popovers and tooltips.
    #[must_use]
    pub fn label(self) -> (r: &'static str)
        ensures
            r@ == self.label_text(),
    {
        match self {
            ButtonId::LeftClick => "Left Click",
            ButtonId::RightClick => "Right Click",
            ButtonId::MiddleClick => "Middle Click",
            ButtonId::Back => "Back",
            ButtonId::Forward => "Forward",
            ButtonId::DpiToggle => "DPI Toggle",
            ButtonId::Thumbwheel => "Thumb Wheel",
            ButtonId::ThumbwheelScrollUp => "Thumb Wheel Up",
            ButtonId::ThumbwheelScrollDown => "Thumb Wheel Down",
            ButtonId::GestureButton => "Gesture Button",
        }
    }

    fn rank_of(self) -> (r: u8)
        ensures
            r == self.rank(),
    {
        match self {
            ButtonId::LeftClick => 0,
            ButtonId::RightClick => 1,
            ButtonId::MiddleClick => 2,
            ButtonId::Back => 3,
            ButtonId::Forward => 4,
            ButtonId::DpiToggle => 5,
            ButtonId::Thumbwheel => 6,
            ButtonId::ThumbwheelScrollUp => 7,
            ButtonId::ThumbwheelScrollDown => 8,
            ButtonId::GestureButton => 9,
        }
    }
}

/// [`ButtonId::ALL`] lists every button exactly once, at the place that its
/// rank gives.
pub proof fn law_all_buttons_listed(b: ButtonId)
    ensures
        0 <= b.rank() < ButtonId::ALL@.len(),
        ButtonId::ALL@[b.rank()] == b,
        forall|i: int| 0 <= i < ButtonId::ALL@.len() ==> (#[trigger] ButtonId::ALL@[i]).rank() == i,
{
}

impl View for ButtonId {
    type V = ButtonId;

    open spec fn view(&self) -> ButtonId {
        *self
    }
}

impl Replica for ButtonId {
    fn replica(&self) -> (r: ButtonId) {
        *self
    }
}

impl MapKey for ButtonId {
    type Query = ButtonId;

    open spec fn before(a: ButtonId, b: ButtonId) -> bool {
        a.rank() < b.rank()
    }

    proof fn order_is_strict(a: ButtonId, b: ButtonId, c: ButtonId) {
    }

    fn as_query(&self) -> (q: &ButtonId) {
        self
    }

    fn compare(&self, q: &ButtonId) -> (r: KeyOrder) {
        let (x, y) = (self.rank_of(), q.rank_of());
        if x < y {
            KeyOrder::Before
        } else if x == y {
            KeyOrder::Same
        } else {
            KeyOrder::After
        }
    }
}

// ---------------------------------------------------------------------------
// Gesture directions
// ---------------------------------------------------------------------------

/// One of the five sub-bindings of a gesture button: a hold with a swipe up,
/// down, left or right, or a plain click without movement.
#[derive(Clone, Copy, Debug, PartialEq, Eq, Hash, PartialOrd, Ord, Structural)]
pub enum GestureDirection {
    Up,
    Down,
    Left,
    Right,
    Click,
}

impl GestureDirection {
    /// Every direction, in declaration order.
    pub const ALL: [GestureDirection; 5] = [
        GestureDirection::Up,
        GestureDirection::Down,
        GestureDirection::Left,
        GestureDirection::Right,
        GestureDirection::Click,
    ];

    /// The place of the direction in [`GestureDirection::ALL`].
    pub open spec fn rank(self) -> int {
        match self {
            GestureDirection::Up => 0,
            GestureDirection::Down => 1,
            GestureDirection::Left => 2,
            GestureDirection::Right => 3,
            GestureDirection::Click => 4,
        }
    }

    /// The name of the direction.
    pub open spec fn label_text(self) -> Seq<char> {
        match self {
            GestureDirection::Up => "Up"@,
            GestureDirection::Down => "Down"@,
            GestureDirection::Left => "Left"@,
            GestureDirection::Right => "Right"@,
            GestureDirection::Click => "Click"@,
        }
    }

    /// The arrow that stands for the direction.
    pub open spec fn glyph_text(self) -> Seq<char> {
        match self {
            GestureDirection::Up => "↑"@,
            GestureDirection::Down => "↓"@,
            GestureDirection::Left => "←"@,
            GestureDirection::Right => "→"@,
            GestureDirection::Click => "·"@,
        }
    }

    /// Human-readable label.
    #[must_use]
    pub fn label(self) -> (r: &'static str)
        ensures
            r@ == self.label_text(),
    {
        match self {
            GestureDirection::Up => "Up",
            GestureDirection::Down => "Down",
            GestureDirection::Left => "Left",
            GestureDirection::Right => "Right",
            GestureDirection::Click => "Click",
        }
    }

    /// Arrow glyph for compact list rendering.
    #[must_use]
    pub fn glyph(self) -> (r: &'static str)
        ensures
            r@ == self.glyph_text(),
    {
        match self {
            GestureDirection::Up => "↑",
            GestureDirection::Down => "↓",
            GestureDirection::Left => "←",
            GestureDirection::Right => "→",
            GestureDirection::Click => "·",
        }
    }

    fn rank_of(self) -> (r: u8)
        ensures
            r == self.rank(),
    {
        match self {
            GestureDirection::Up => 0,
            GestureDirection::Down => 1,
            GestureDirection::Left => 2,
            GestureDirection::Right => 3,
            GestureDirection::Click => 4,
        }
    }
}

/// [`GestureDirection::ALL`] lists every direction exactly once, at the place
/// that its rank gives.
pub proof fn law_all_directions_listed(d: GestureDirection)
    ensures
        0 <= d.rank() < GestureDirection::ALL@.len(),
        GestureDirection::ALL@[d.rank()] == d,
        forall|i: int|
            0 <= i < GestureDirection::ALL@.len() ==> (#[trigger] GestureDirection::ALL@[i]).rank()
                == i,
{
}

impl View for GestureDirection {
    type V = GestureDirection;

    open spec fn view(&self) -> GestureDirection {
        *self
    }
}

impl Replica for GestureDirection {
    fn replica(&self) -> (r: GestureDirection) {
        *self
    }
}

impl MapKey for GestureDirection {
    type Query = GestureDirection;

    open spec fn before(a: GestureDirection, b: GestureDirection) -> bool {
        a.rank() < b.rank()
    }

    proof fn order_is_strict(a: GestureDirection, b: GestureDirection, c: GestureDirection) {
    }

    fn as_query(&self) -> (q: &GestureDirection) {
        self
    }

    fn compare(&self, q: &GestureDirection) -> (r: KeyOrder) {
        let (x, y) = (self.rank_of(), q.rank_of());
        if x < y {
            KeyOrder::Before
        } else if x == y {
            KeyOrder::Same
        } else {
            KeyOrder::After
        }
    }
}

// ---------------------------------------------------------------------------
// Actions
// ---------------------------------------------------------------------------

/// Grouping for popover section headers.
#[derive(Clone, Copy, Debug, PartialEq, Eq, Hash, Structural)]
pub enum Category {
    /// Cut, copy, paste, undo, redo, select-all, find, save.
    Editing,
    /// Browser navigation: tabs, page reload, back/forward.
    Browser,
    /// Playback and volume controls.
    Media,
    /// Physical mouse clicks.
    Mouse,
    /// DPI cycle and SmartShift.
    Dpi,
    /// Scroll direction shortcuts.
    Scroll,
    /// Window/app navigation: Mission Control, Launchpad, etc.
    Navigation,
    /// Lock screen, show desktop, system-level actions.
    System,
}

impl Category {
    /// The section header for the group.
    pub open spec fn label_text(self) -> Seq<char> {
        match self {
            Category::Editing => "EDITING"@,
            Category::Browser => "BROWSER"@,
            Category::Media => "MEDIA"@,
            Category::Mouse => "MOUSE"@,
            Category::Dpi => "DPI"@,
            Category::Scroll => "SCROLL"@,
            Category::Navigation => "NAVIGATION"@,
            Category::System => "SYSTEM"@,
        }
    }

    /// Short upper-case label for popover section headers.
    #[must_use]
    pub fn label(self) -> (r: &'static str)
        ensures
            r@ == self.label_text(),
    {
        match self {
            Category::Editing => "EDITING",
            Category::Browser => "BROWSER",
            Category::Media => "MEDIA",
            Category::Mouse => "MOUSE",
            Category::Dpi => "DPI",
            Category::Scroll => "SCROLL",
            Category::Navigation => "NAVIGATION",
            Category::System => "SYSTEM",
        }
    }
}

/// What pressing a [`ButtonId`] should do.
///
/// This is plain configuration data: which native events an action stands for
/// on each platform is settled in [`crate::inject`].
#[derive(Debug, PartialEq, Eq, Hash)]
pub enum Action {
    // System
    /// Suppress the input entirely — the button or wheel direction is captured
    /// but no OS event is synthesised, so the physical input does nothing.
    DoNothing,

    // Mouse
    /// Primary mouse button.
    LeftClick,
    /// Secondary mouse button.
    RightClick,
    /// Middle mouse button (wheel click).
    MiddleClick,
    /// Mouse "back" side button (extra button 4). Synthesizes the real mouse
    /// button event, which browsers and most apps interpret as "navigate back"
    /// natively — unlike [`Action::BrowserBack`], which sends ⌘[ and is ignored
    /// by many apps.
    MouseBack,
    /// Mouse "forward" side button (extra button 5). Native counterpart to
    /// [`Action::MouseBack`]; see [`Action::BrowserForward`] for the ⌘] form.
    MouseForward,

    // Editing
    /// Copy the current selection (⌘C / Ctrl+C).
    Copy,
    /// Paste from the clipboard (⌘V / Ctrl+V).
    Paste,
    /// Cut the current selection (⌘X / Ctrl+X).
    Cut,
    /// Undo the last action (⌘Z / Ctrl+Z).
    Undo,
    /// Redo the last undone action (⌘⇧Z on macOS / Ctrl+Shift+Z on Linux).
    ///
    /// Note: Ctrl+Y is the dominant redo shortcut in LibreOffice and many GTK
    /// apps. Ctrl+Shift+Z is used here because it mirrors the macOS convention
    /// and works in GNOME text fields, browsers, and Electron apps. If Ctrl+Y
    /// coverage is needed, a `CustomShortcut` binding is the escape hatch.
    Redo,
    /// Select all content (⌘A / Ctrl+A).
    SelectAll,
    /// Open the find / search bar (⌘F / Ctrl+F).
    Find,
    /// Save the current document (⌘S / Ctrl+S).
    Save,

    // Browser / Navigation
    /// Navigate backward in browser history.
    BrowserBack,
    /// Navigate forward in browser history.
    BrowserForward,
    /// Open a new tab (⌘T / Ctrl+T).
    NewTab,
    /// Close the current tab (⌘W / Ctrl+W).
    CloseTab,
    /// Reopen the last closed tab (⌘⇧T / Ctrl+Shift+T).
    ReopenTab,
    /// Switch to the next tab (⌃⇥ / Ctrl+Tab).
    NextTab,
    /// Switch to the previous tab (⌃⇧⇥ / Ctrl+Shift+Tab).
    PrevTab,
    /// Reload the current page (⌘R / Ctrl+R).
    ReloadPage,

    // Navigation / Window
    /// macOS Mission Control (⌃↑).
    MissionControl,
    /// macOS App Exposé — all windows for the current app (⌃↓).
    AppExpose,
    /// Switch to the previous desktop / Space.
    PreviousDesktop,
    /// Switch to the next desktop / Space.
    NextDesktop,
    /// Show the desktop (hide all windows).
    ShowDesktop,
    /// Open Launchpad.
    LaunchpadShow,

    // System
    /// Lock the screen (⌘⌃Q on macOS).
    ///
    /// On Linux, calls `org.freedesktop.login1.Manager.LockSession($XDG_SESSION_ID)`
    /// on the system bus (current session only). Falls back to Super+L when
    /// `$XDG_SESSION_ID` is unset or on non-systemd systems.
    LockScreen,
    /// Capture a screenshot.
    Screenshot,
    /// Capture a selected screen region to the clipboard.
    ///
    /// macOS uses Cmd+Shift+Ctrl+4; Windows uses Win+Shift+S. Linux delegates
    /// to the desktop environment's screenshot handler via Print Screen.
    CaptureRegion,

    // Media
    /// Toggle media play/pause.
    PlayPause,
    /// Skip to the next track.
    NextTrack,
    /// Go back to the previous track.
    PrevTrack,
    /// Increase system volume.
    VolumeUp,
    /// Decrease system volume.
    VolumeDown,
    /// Toggle system mute.
    MuteVolume,

    // DPI
    /// Step through the configured DPI preset list.
    CycleDpiPresets,
    /// Jump to a specific zero-based preset in the device's DPI preset list.
    /// Out-of-range indices clamp to the list length at fire time.
    SetDpiPreset(u8),
    /// Toggle the HID++ SmartShift ratchet/free-spin wheel mode.
    ToggleSmartShift,

    // Scroll
    /// Synthesise a vertical scroll-up tick.
    ScrollUp,
    /// Synthesise a vertical scroll-down tick.
    ScrollDown,
    /// Synthesise a horizontal scroll-left tick.
    HorizontalScrollLeft,
    /// Synthesise a horizontal scroll-right tick.
    HorizontalScrollRight,

    // Custom
    /// Replay an arbitrary recorded key chord.
    ///
    /// The chord's own display text is what [`Action::label`] shows.
    CustomShortcut(KeyCombo),
}

impl View for Action {
    type V = Action;

    open spec fn view(&self) -> Action {
        *self
    }
}

impl Clone for Action {
    fn clone(&self) -> (r: Self)
        ensures
            r == *self,
    {
        match self {
            Action::DoNothing => Action::DoNothing,
            Action::LeftClick => Action::LeftClick,
            Action::RightClick => Action::RightClick,
            Action::MiddleClick => Action::MiddleClick,
            Action::MouseBack => Action::MouseBack,
            Action::MouseForward => Action::MouseForward,
            Action::Copy => Action::Copy,
            Action::Paste => Action::Paste,
            Action::Cut => Action::Cut,
            Action::Undo => Action::Undo,
            Action::Redo => Action::Redo,
            Action::SelectAll => Action::SelectAll,
            Action::Find => Action::Find,
            Action::Save => Action::Save,
            Action::BrowserBack => Action::BrowserBack,
            Action::BrowserForward => Action::BrowserForward,
            Action::NewTab => Action::NewTab,
            Action::CloseTab => Action::CloseTab,
            Action::ReopenTab => Action::ReopenTab,
            Action::NextTab => Action::NextTab,
            Action::PrevTab => Action::PrevTab,
            Action::ReloadPage => Action::ReloadPage,
            Action::MissionControl => Action::MissionControl,
            Action::AppExpose => Action::AppExpose,
            Action::PreviousDesktop => Action::PreviousDesktop,
            Action::NextDesktop => Action::NextDesktop,
            Action::ShowDesktop => Action::ShowDesktop,
            Action::LaunchpadShow => Action::LaunchpadShow,
            Action::LockScreen => Action::LockScreen,
            Action::Screenshot => Action::Screenshot,
            Action::CaptureRegion => Action::CaptureRegion,
            Action::PlayPause => Action::PlayPause,
            Action::NextTrack => Action::NextTrack,
            Action::PrevTrack => Action::PrevTrack,
            Action::VolumeUp => Action::VolumeUp,
            Action::VolumeDown => Action::VolumeDown,
            Action::MuteVolume => Action::MuteVolume,
            Action::CycleDpiPresets => Action::CycleDpiPresets,
            Action::ToggleSmartShift => Action::ToggleSmartShift,
            Action::ScrollUp => Action::ScrollUp,
            Action::ScrollDown => Action::ScrollDown,
            Action::HorizontalScrollLeft => Action::HorizontalScrollLeft,
            Action::HorizontalScrollRight => Action::HorizontalScrollRight,
            Action::SetDpiPreset(i) => Action::SetDpiPreset(*i),
            Action::CustomShortcut(combo) => Action::CustomShortcut(combo.clone()),
        }
    }
}

impl Replica for Action {
    fn replica(&self) -> (r: Action) {
        self.clone()
    }
}

impl Action {
    /// The number that a DPI preset is shown with counts from one and fits in a
    /// byte.
    pub open spec fn has_label(self) -> bool {
        self matches Action::SetDpiPreset(i) ==> i < 255
    }

    /// The text that stands for the action in the picker.
    pub open spec fn label_text(self) -> Seq<char> {
        match self {
            Action::DoNothing => "Do Nothing"@,
            Action::LeftClick => "Left Click"@,
            Action::RightClick => "Right Click"@,
            Action::MiddleClick => "Middle Click"@,
            Action::MouseBack => "Back (Button 4)"@,
            Action::MouseForward => "Forward (Button 5)"@,
            Action::Copy => "Copy"@,
            Action::Paste => "Paste"@,
            Action::Cut => "Cut"@,
            Action::Undo => "Undo"@,
            Action::Redo => "Redo"@,
            Action::SelectAll => "Select All"@,
            Action::Find => "Find"@,
            Action::Save => "Save"@,
            Action::BrowserBack => "Browser Back"@,
            Action::BrowserForward => "Browser Forward"@,
            Action::NewTab => "New Tab"@,
            Action::CloseTab => "Close Tab"@,
            Action::ReopenTab => "Reopen Tab"@,
            Action::NextTab => "Next Tab"@,
            Action::PrevTab => "Previous Tab"@,
            Action::ReloadPage => "Reload Page"@,
            Action::MissionControl => "Mission Control"@,
            Action::AppExpose => "App Exposé"@,
            Action::PreviousDesktop => "Previous Desktop"@,
            Action::NextDesktop => "Next Desktop"@,
            Action::ShowDesktop => "Show Desktop"@,
            Action::LaunchpadShow => "Launchpad"@,
            Action::LockScreen => "Lock Screen"@,
            Action::Screenshot => "Screenshot"@,
            Action::CaptureRegion => "Capture Region"@,
            Action::PlayPause => "Play / Pause"@,
            Action::NextTrack => "Next Track"@,
            Action::PrevTrack => "Previous Track"@,
            Action::VolumeUp => "Volume Up"@,
            Action::VolumeDown => "Volume Down"@,
            Action::MuteVolume => "Mute"@,
            Action::CycleDpiPresets => "Cycle DPI Presets"@,
            Action::ToggleSmartShift => "Toggle SmartShift"@,
            Action::ScrollUp => "Scroll Up"@,
            Action::ScrollDown => "Scroll Down"@,
            Action::HorizontalScrollLeft => "Scroll Left"@,
            Action::HorizontalScrollRight => "Scroll Right"@,
            Action::SetDpiPreset(i) => "DPI Preset "@ + crate::text::numeral(
                (i + 1) as nat,
                10,
                1,
            ),
            Action::CustomShortcut(combo) => combo.label_text(),
        }
    }

    /// Display label for the popover row.
    #[must_use]
    pub fn label(&self) -> (r: String)
        requires
            self.has_label(),
        ensures
            r@ == self.label_text(),
    {
        match self {
            Action::DoNothing => "Do Nothing".to_string(),
            Action::LeftClick => "Left Click".to_string(),
            Action::RightClick => "Right Click".to_string(),
            Action::MiddleClick => "Middle Click".to_string(),
            Action::MouseBack => "Back (Button 4)".to_string(),
            Action::MouseForward => "Forward (Button 5)".to_string(),
            Action::Copy => "Copy".to_string(),
            Action::Paste => "Paste".to_string(),
            Action::Cut => "Cut".to_string(),
            Action::Undo => "Undo".to_string(),
            Action::Redo => "Redo".to_string(),
            Action::SelectAll => "Select All".to_string(),
            Action::Find => "Find".to_string(),
            Action::Save => "Save".to_string(),
            Action::BrowserBack => "Browser Back".to_string(),
            Action::BrowserForward => "Browser Forward".to_string(),
            Action::NewTab => "New Tab".to_string(),
            Action::CloseTab => "Close Tab".to_string(),
            Action::ReopenTab => "Reopen Tab".to_string(),
            Action::NextTab => "Next Tab".to_string(),
            Action::PrevTab => "Previous Tab".to_string(),
            Action::ReloadPage => "Reload Page".to_string(),
            Action::MissionControl => "Mission Control".to_string(),
            Action::AppExpose => "App Exposé".to_string(),
            Action::PreviousDesktop => "Previous Desktop".to_string(),
            Action::NextDesktop => "Next Desktop".to_string(),
            Action::ShowDesktop => "Show Desktop".to_string(),
            Action::LaunchpadShow => "Launchpad".to_string(),
            Action::LockScreen => "Lock Screen".to_string(),
            Action::Screenshot => "Screenshot".to_string(),
            Action::CaptureRegion => "Capture Region".to_string(),
            Action::PlayPause => "Play / Pause".to_string(),
            Action::NextTrack => "Next Track".to_string(),
            Action::PrevTrack => "Previous Track".to_string(),
            Action::VolumeUp => "Volume Up".to_string(),
            Action::VolumeDown => "Volume Down".to_string(),
            Action::MuteVolume => "Mute".to_string(),
            Action::CycleDpiPresets => "Cycle DPI Presets".to_string(),
            Action::ToggleSmartShift => "Toggle SmartShift".to_string(),
            Action::ScrollUp => "Scroll Up".to_string(),
            Action::ScrollDown => "Scroll Down".to_string(),
            Action::HorizontalScrollLeft => "Scroll Left".to_string(),
            Action::HorizontalScrollRight => "Scroll Right".to_string(),
            Action::SetDpiPreset(i) => {
                let mut out = "DPI Preset ".to_string();
                push_numeral(&mut out, (*i + 1) as u16, 10, 1);
                out
            },
            Action::CustomShortcut(combo) => combo.rendered_label(),
        }
    }

    /// The group that the action is shown in.
    pub open spec fn group(self) -> Category {
        match self {
            Action::LeftClick
            | Action::RightClick
            | Action::MiddleClick
            | Action::MouseBack
            | Action::MouseForward => Category::Mouse,
            Action::Copy
            | Action::Paste
            | Action::Cut
            | Action::Undo
            | Action::Redo
            | Action::SelectAll
            | Action::Find
            | Action::Save
            | Action::CustomShortcut(_) => Category::Editing,
            Action::BrowserBack
            | Action::BrowserForward
            | Action::NewTab
            | Action::CloseTab
            | Action::ReopenTab
            | Action::NextTab
            | Action::PrevTab
            | Action::ReloadPage => Category::Browser,
            Action::MissionControl
            | Action::AppExpose
            | Action::PreviousDesktop
            | Action::NextDesktop
            | Action::ShowDesktop
            | Action::LaunchpadShow => Category::Navigation,
            Action::DoNothing | Action::LockScreen | Action::Screenshot | Action::CaptureRegion => {
                Category::System
            }
            Action::PlayPause
            | Action::NextTrack
            | Action::PrevTrack
            | Action::VolumeUp
            | Action::VolumeDown
            | Action::MuteVolume => Category::Media,
            Action::CycleDpiPresets | Action::SetDpiPreset(_) | Action::ToggleSmartShift => {
                Category::Dpi
            }
            Action::ScrollUp
            | Action::ScrollDown
            | Action::HorizontalScrollLeft
            | Action::HorizontalScrollRight => Category::Scroll,
        }
    }

    /// Which [`Category`] this action belongs to, used for popover grouping.
    #[must_use]
    pub fn category(&self) -> (r: Category)
        ensures
            r == self.group(),
    {
        match self {
            Action::LeftClick
            | Action::RightClick
            | Action::MiddleClick
            | Action::MouseBack
            | Action::MouseForward => Category::Mouse,
            Action::Copy
            | Action::Paste
            | Action::Cut
            | Action::Undo
            | Action::Redo
            | Action::SelectAll
            | Action::Find
            | Action::Save
            | Action::CustomShortcut(_) => Category::Editing,
            Action::BrowserBack
            | Action::BrowserForward
            | Action::NewTab
            | Action::CloseTab
            | Action::ReopenTab
            | Action::NextTab
            | Action::PrevTab
            | Action::ReloadPage => Category::Browser,
            Action::MissionControl
            | Action::AppExpose
            | Action::PreviousDesktop
            | Action::NextDesktop
            | Action::ShowDesktop
            | Action::LaunchpadShow => Category::Navigation,
            Action::DoNothing | Action::LockScreen | Action::Screenshot | Action::CaptureRegion => {
                Category::System
            }
            Action::PlayPause
            | Action::NextTrack
            | Action::PrevTrack
            | Action::VolumeUp
            | Action::VolumeDown
            | Action::MuteVolume => Category::Media,
            Action::CycleDpiPresets | Action::SetDpiPreset(_) | Action::ToggleSmartShift => {
                Category::Dpi
            }
            Action::ScrollUp
            | Action::ScrollDown
            | Action::HorizontalScrollLeft
            | Action::HorizontalScrollRight => Category::Scroll,
        }
    }

    /// The pickable actions in the order of the picker.
    pub open spec fn catalog_list() -> Seq<Action> {
        seq![
            // Mouse
            Action::LeftClick,
            Action::RightClick,
            Action::MiddleClick,
            Action::MouseBack,
            Action::MouseForward,
            // Editing
            Action::Copy,
            Action::Paste,
            Action::Cut,
            Action::Undo,
            Action::Redo,
            Action::SelectAll,
            Action::Find,
            Action::Save,
            // Browser
            Action::BrowserBack,
            Action::BrowserForward,
            Action::NewTab,
            Action::CloseTab,
            Action::ReopenTab,
            Action::NextTab,
            Action::PrevTab,
            Action::ReloadPage,
            // Navigation
            Action::MissionControl,
            Action::AppExpose,
            Action::PreviousDesktop,
            Action::NextDesktop,
            Action::ShowDesktop,
            Action::LaunchpadShow,
            // System
            Action::DoNothing,
            Action::LockScreen,
            Action::Screenshot,
            Action::CaptureRegion,
            // Media
            Action::PlayPause,
            Action::NextTrack,
            Action::PrevTrack,
            Action::VolumeUp,
            Action::VolumeDown,
            Action::MuteVolume,
            // DPI
            Action::CycleDpiPresets,
            Action::ToggleSmartShift,
            // Scroll
            Action::ScrollUp,
            Action::ScrollDown,
            Action::HorizontalScrollLeft,
            Action::HorizontalScrollRight,
        ]
    }

    /// Whether the action can be picked from the catalog: it carries nothing
    /// that the user would have to enter first.
    pub open spec fn pickable(self) -> bool {
        !(self is SetDpiPreset) && !(self is CustomShortcut)
    }

    /// All pickable actions in a deterministic order.
    ///
    /// [`Action::CustomShortcut`] is left out: it is recorded, not picked.
    #[must_use]
    pub fn catalog() -> (r: Vec<Action>)
        ensures
            r@ == Self::catalog_list(),
    {
        vec![
            // Mouse
            Action::LeftClick,
            Action::RightClick,
            Action::MiddleClick,
            Action::MouseBack,
            Action::MouseForward,
            // Editing
            Action::Copy,
            Action::Paste,
            Action::Cut,
            Action::Undo,
            Action::Redo,
            Action::SelectAll,
            Action::Find,
            Action::Save,
            // Browser
            Action::BrowserBack,
            Action::BrowserForward,
            Action::NewTab,
            Action::CloseTab,
            Action::ReopenTab,
            Action::NextTab,
            Action::PrevTab,
            Action::ReloadPage,
            // Navigation
            Action::MissionControl,
            Action::AppExpose,
            Action::PreviousDesktop,
            Action::NextDesktop,
            Action::ShowDesktop,
            Action::LaunchpadShow,
            // System
            Action::DoNothing,
            Action::LockScreen,
            Action::Screenshot,
            Action::CaptureRegion,
            // Media
            Action::PlayPause,
            Action::NextTrack,
            Action::PrevTrack,
            Action::VolumeUp,
            Action::VolumeDown,
            Action::MuteVolume,
            // DPI
            Action::CycleDpiPresets,
            Action::ToggleSmartShift,
            // Scroll
            Action::ScrollUp,
            Action::ScrollDown,
            Action::HorizontalScrollLeft,
            Action::HorizontalScrollRight,
        ]
    }
}

// ---------------------------------------------------------------------------
// Bindings
// ---------------------------------------------------------------------------

/// What one [`ButtonId`] does: a single [`Action`], or, for a button in gesture
/// mode, one action per [`GestureDirection`].
#[derive(Debug, PartialEq, Eq)]
pub enum Binding {
    /// One action, fired on press.
    Single(Action),
    /// Per-direction actions, keyed by the committed swipe direction, with
    /// [`GestureDirection::Click`] holding the action of a press without a
    /// swipe.
    Gesture(OrderedMap<GestureDirection, Action>),
}

/// What a [`Binding`] stands for.
#[verifier::ext_equal]
pub enum BindingView {
    Single(Action),
    Gesture(Map<GestureDirection, Action>),
}

impl View for Binding {
    type V = BindingView;

    open spec fn view(&self) -> BindingView {
        match self {
            Binding::Single(action) => BindingView::Single(*action),
            Binding::Gesture(map) => BindingView::Gesture(map@),
        }
    }
}

impl BindingView {
    /// The action of a plain click: nothing for a gesture binding that leaves
    /// the click open.
    pub open spec fn click(self) -> Action {
        match self {
            BindingView::Single(action) => action,
            BindingView::Gesture(map) => if map.contains_key(GestureDirection::Click) {
                map[GestureDirection::Click]
            } else {
                Action::DoNothing
            },
        }
    }

    /// The action of one direction of a gesture binding.
    pub open spec fn direction(self, d: GestureDirection) -> Option<Action> {
        match self {
            BindingView::Single(_) => None,
            BindingView::Gesture(map) => map.get(d),
        }
    }

    /// The binding in gesture mode: a single action becomes the click.
    pub open spec fn upgraded(self) -> BindingView {
        match self {
            BindingView::Single(action) => BindingView::Gesture(
                Map::empty().insert(GestureDirection::Click, action),
            ),
            BindingView::Gesture(map) => self,
        }
    }

    /// The binding with every open direction at its default.
    pub open spec fn filled(self) -> BindingView {
        match self {
            BindingView::Single(_) => self,
            BindingView::Gesture(map) => BindingView::Gesture(
                default_gesture_map().union_prefer_right(map),
            ),
        }
    }
}

/// The default of every direction.
pub open spec fn default_gesture_map() -> Map<GestureDirection, Action> {
    Map::total(|d: GestureDirection| default_gesture_action(d))
}

impl Clone for Binding {
    fn clone(&self) -> (r: Self)
        ensures
            r@ == self@,
    {
        match self {
            Binding::Single(action) => Binding::Single(action.clone()),
            Binding::Gesture(map) => Binding::Gesture(map.clone()),
        }
    }
}

impl Replica for Binding {
    fn replica(&self) -> (r: Binding) {
        self.clone()
    }
}

impl From<Action> for Binding {
    fn from(action: Action) -> (r: Binding) {
        Binding::Single(action)
    }
}

impl vstd::std_specs::convert::FromSpecImpl<Action> for Binding {
    open spec fn obeys_from_spec() -> bool {
        true
    }

    open spec fn from_spec(action: Action) -> Binding {
        Binding::Single(action)
    }
}

impl Binding {
    /// The plain-click action of this binding. [`Action::DoNothing`] where a gesture
    /// binding has no explicit click.
    #[must_use]
    pub fn click_action(&self) -> (r: Action)
        ensures
            r == self@.click(),
    {
        match self {
            Binding::Single(action) => action.clone(),
            Binding::Gesture(map) => match map.get(&GestureDirection::Click) {
                Some(action) => action.clone(),
                None => Action::DoNothing,
            },
        }
    }

    /// The action bound to `direction`, if this is a gesture binding.
    #[must_use]
    pub fn direction_action(&self, direction: GestureDirection) -> (r: Option<&Action>)
        ensures
            match r {
                Some(action) => self@.direction(direction) == Some(*action),
                None => self@.direction(direction) is None,
            },
    {
        match self {
            Binding::Single(_) => None,
            Binding::Gesture(map) => map.get(&direction),
        }
    }

    /// Whether this binding drives swipe capture.
    #[must_use]
    pub fn is_gesture(&self) -> (r: bool)
        ensures
            r == (self@ is Gesture),
    {
        matches!(self, Binding::Gesture(_))
    }

    /// Puts the binding into gesture mode: a single action is kept as the
    /// click, with the swipes left open. Nothing happens to a gesture binding.
    pub fn upgrade_to_gesture(&mut self)
        ensures
            final(self)@ == old(self)@.upgraded(),
    {
        if let Binding::Single(action) = self {
            let mut map: OrderedMap<GestureDirection, Action> = OrderedMap::new();
            map.insert(GestureDirection::Click, action.clone());
            *self = Binding::Gesture(map);
        }
    }

    /// Gives every open direction of a gesture binding its default, and leaves
    /// the directions that are bound, and any single binding, as they are.
    pub fn fill_gesture_defaults(&mut self)
        ensures
            final(self)@ == old(self)@.filled(),
    {
        if let Binding::Gesture(map) = self {
            let mut full = map.clone();
            fill_directions(&mut full);
            *self = Binding::Gesture(full);
        }
    }
}

/// Gives every direction that `map` leaves open its default.
pub fn fill_directions(map: &mut OrderedMap<GestureDirection, Action>)
    ensures
        final(map)@ == default_gesture_map().union_prefer_right(old(map)@),
{
    let ghost start = map@;
    let mut i: usize = 0;
    while i < 5
        invariant
            i <= 5,
            forall|d: GestureDirection|
                #![trigger map@.contains_key(d)]
                map@.contains_key(d) == (start.contains_key(d) || d.rank() < i),
            forall|d: GestureDirection| #[trigger]
                map@.contains_key(d) ==> map@[d] == default_gesture_map().union_prefer_right(
                    start,
                )[d],
        decreases 5 - i,
    {
        let d = GestureDirection::ALL[i];
        if !map.contains_key(&d) {
            map.insert(d, default_gesture_binding(d));
        }
        i = i + 1;
    }
    assert(map@ =~= default_gesture_map().union_prefer_right(start));
}

// ---------------------------------------------------------------------------
// Defaults
// ---------------------------------------------------------------------------

/// What a button does on a fresh device.
pub open spec fn default_action(button: ButtonId) -> Action {
    match button {
        ButtonId::LeftClick => Action::LeftClick,
        ButtonId::RightClick => Action::RightClick,
        ButtonId::MiddleClick => Action::MiddleClick,
        ButtonId::Back => Action::BrowserBack,
        ButtonId::Forward => Action::BrowserForward,
        ButtonId::DpiToggle => Action::CycleDpiPresets,
        ButtonId::Thumbwheel => Action::AppExpose,
        ButtonId::ThumbwheelScrollUp => Action::HorizontalScrollRight,
        ButtonId::ThumbwheelScrollDown => Action::HorizontalScrollLeft,
        ButtonId::GestureButton => Action::MissionControl,
    }
}

/// What a direction of a gesture button does on a fresh device.
pub open spec fn default_gesture_action(direction: GestureDirection) -> Action {
    match direction {
        GestureDirection::Up => Action::MissionControl,
        GestureDirection::Down => Action::ShowDesktop,
        GestureDirection::Left => Action::PrevTab,
        GestureDirection::Right => Action::NextTab,
        GestureDirection::Click => Action::AppExpose,
    }
}

/// How a button is bound on a fresh device: the dedicated gesture button in
/// gesture mode, every other button to a single action.
pub open spec fn default_binding_view(button: ButtonId) -> BindingView {
    if button is GestureButton {
        BindingView::Gesture(default_gesture_map())
    } else {
        BindingView::Single(default_action(button))
    }
}

/// The action that a button has on a fresh device. The thumb wheel scrolls
/// horizontally, up to the right and down to the left.
///
/// For [`ButtonId::GestureButton`] the binding of a fresh device is the one of
/// [`default_binding_for`]; the action given here is what its plain press
/// stands for where one action per button is wanted.
#[must_use]
pub fn default_binding(button: ButtonId) -> (r: Action)
    ensures
        r == default_action(button),
{
    match button {
        ButtonId::LeftClick => Action::LeftClick,
        ButtonId::RightClick => Action::RightClick,
        ButtonId::MiddleClick => Action::MiddleClick,
        ButtonId::Back => Action::BrowserBack,
        ButtonId::Forward => Action::BrowserForward,
        ButtonId::DpiToggle => Action::CycleDpiPresets,
        ButtonId::Thumbwheel => Action::AppExpose,
        ButtonId::ThumbwheelScrollUp => Action::HorizontalScrollRight,
        ButtonId::ThumbwheelScrollDown => Action::HorizontalScrollLeft,
        ButtonId::GestureButton => Action::MissionControl,
    }
}

/// Per-direction defaults for the gesture button.
#[must_use]
pub fn default_gesture_binding(direction: GestureDirection) -> (r: Action)
    ensures
        r == default_gesture_action(direction),
{
    match direction {
        GestureDirection::Up => Action::MissionControl,
        GestureDirection::Down => Action::ShowDesktop,
        GestureDirection::Left => Action::PrevTab,
        GestureDirection::Right => Action::NextTab,
        GestureDirection::Click => Action::AppExpose,
    }
}

/// The canonical [`Binding`] of a fresh button: the full direction map for the
/// dedicated gesture button, [`default_binding`] for every other.
#[must_use]
pub fn default_binding_for(button: ButtonId) -> (r: Binding)
    ensures
        r@ == default_binding_view(button),
{
    if button == ButtonId::GestureButton {
        let mut map: OrderedMap<GestureDirection, Action> = OrderedMap::new();
        fill_directions(&mut map);
        assert(default_gesture_map().union_prefer_right(
            Map::<GestureDirection, Action>::empty(),
        ) =~= default_gesture_map());
        Binding::Gesture(map)
    } else {
        Binding::Single(default_binding(button))
    }
}

// ---------------------------------------------------------------------------
// Laws
// ---------------------------------------------------------------------------

/// Where a pickable action stands in the catalog.
spec fn catalog_index(action: Action) -> int {
    match action {
        Action::LeftClick => 0,
        Action::RightClick => 1,
        Action::MiddleClick => 2,
        Action::MouseBack => 3,
        Action::MouseForward => 4,
        Action::Copy => 5,
        Action::Paste => 6,
        Action::Cut => 7,
        Action::Undo => 8,
        Action::Redo => 9,
        Action::SelectAll => 10,
        Action::Find => 11,
        Action::Save => 12,
        Action::BrowserBack => 13,
        Action::BrowserForward => 14,
        Action::NewTab => 15,
        Action::CloseTab => 16,
        Action::ReopenTab => 17,
        Action::NextTab => 18,
        Action::PrevTab => 19,
        Action::ReloadPage => 20,
        Action::MissionControl => 21,
        Action::AppExpose => 22,
        Action::PreviousDesktop => 23,
        Action::NextDesktop => 24,
        Action::ShowDesktop => 25,
        Action::LaunchpadShow => 26,
        Action::DoNothing => 27,
        Action::LockScreen => 28,
        Action::Screenshot => 29,
        Action::CaptureRegion => 30,
        Action::PlayPause => 31,
        Action::NextTrack => 32,
        Action::PrevTrack => 33,
        Action::VolumeUp => 34,
        Action::VolumeDown => 35,
        Action::MuteVolume => 36,
        Action::CycleDpiPresets => 37,
        Action::ToggleSmartShift => 38,
        Action::ScrollUp => 39,
        Action::ScrollDown => 40,
        Action::HorizontalScrollLeft => 41,
        Action::HorizontalScrollRight => 42,
        _ => -1,
    }
}

/// The catalog has every pickable action, each of them once, and nothing else.
pub proof fn law_catalog_is_complete(action: Action)
    ensures
        Action::catalog_list().contains(action) <==> action.pickable(),
        Action::catalog_list().no_duplicates(),
{
    let list = Action::catalog_list();
    assert forall|i: int| 0 <= i < list.len() implies #[trigger] catalog_index(list[i]) == i by {}
    if action.pickable() {
        assert(list[catalog_index(action)] == action);
    }
    assert forall|i: int, j: int| 0 <= i < list.len() && 0 <= j < list.len() && i != j implies list[i]
        != list[j] by {
        assert(catalog_index(list[i]) == i && catalog_index(list[j]) == j);
    }
}

/// Going to gesture mode keeps the click of a binding, and a binding that is in
/// gesture mode already is left as it is.
pub proof fn law_upgrade_keeps_click(binding: BindingView)
    ensures
        binding.upgraded() is Gesture,
        binding.upgraded().click() == binding.click(),
        binding is Gesture ==> binding.upgraded() == binding,
        binding.upgraded().upgraded() == binding.upgraded(),
{
}

/// Filling in defaults binds every direction of a gesture binding, changes none
/// that is bound, and changes nothing the second time.
pub proof fn law_fill_keeps_bound_directions(binding: BindingView, direction: GestureDirection)
    requires
        binding is Gesture,
    ensures
        binding.filled().direction(direction) == match binding.direction(direction) {
            Some(action) => Some(action),
            None => Some(default_gesture_action(direction)),
        },
        binding.filled().filled() == binding.filled(),
{
    let filled = binding.filled()->Gesture_0;
    assert(default_gesture_map().union_prefer_right(filled) =~= filled);
}

// ---------------------------------------------------------------------------
// What the tables hold
// ---------------------------------------------------------------------------

/// The buttons in the order of the physical layout, and the directions in the order
/// in which they are shown.
pub proof fn law_listing_order()
    ensures
        ButtonId::ALL@ == seq![
            ButtonId::LeftClick,
            ButtonId::RightClick,
            ButtonId::MiddleClick,
            ButtonId::Back,
            ButtonId::Forward,
            ButtonId::DpiToggle,
            ButtonId::Thumbwheel,
            ButtonId::ThumbwheelScrollUp,
            ButtonId::ThumbwheelScrollDown,
            ButtonId::GestureButton,
        ],
        GestureDirection::ALL@ == seq![
            GestureDirection::Up,
            GestureDirection::Down,
            GestureDirection::Left,
            GestureDirection::Right,
            GestureDirection::Click,
        ],
{
    assert(ButtonId::ALL@ =~= seq![
        ButtonId::LeftClick,
        ButtonId::RightClick,
        ButtonId::MiddleClick,
        ButtonId::Back,
        ButtonId::Forward,
        ButtonId::DpiToggle,
        ButtonId::Thumbwheel,
        ButtonId::ThumbwheelScrollUp,
        ButtonId::ThumbwheelScrollDown,
        ButtonId::GestureButton,
    ]);
}

/// Maps keyed by buttons or directions are walked in the order of their lists.
pub proof fn law_keys_go_by_rank(a: ButtonId, b: ButtonId, c: GestureDirection, d: GestureDirection)
    ensures
        <ButtonId as MapKey>::before(a, b) <==> a.rank() < b.rank(),
        a.rank() == b.rank() <==> a == b,
        <GestureDirection as MapKey>::before(c, d) <==> c.rank() < d.rank(),
        c.rank() == d.rank() <==> c == d,
{
}

/// Three buttons reach the OS hook: the middle one and the two on the side.
pub proof fn law_hooked_buttons(button: ButtonId)
    ensures
        button.os_hooked() <==> (button == ButtonId::MiddleClick || button == ButtonId::Back
            || button == ButtonId::Forward),
{
}

/// What each button of a fresh device does: a click is itself, the side buttons go
/// back and forward, the thumb wheel scrolls to the side that it is turned to. No
/// two buttons do the same.
pub proof fn law_default_actions(a: ButtonId, b: ButtonId)
    ensures
        default_action(ButtonId::LeftClick) == Action::LeftClick,
        default_action(ButtonId::RightClick) == Action::RightClick,
        default_action(ButtonId::MiddleClick) == Action::MiddleClick,
        default_action(ButtonId::Back) == Action::BrowserBack,
        default_action(ButtonId::Forward) == Action::BrowserForward,
        default_action(ButtonId::DpiToggle) == Action::CycleDpiPresets,
        default_action(ButtonId::Thumbwheel) == Action::AppExpose,
        default_action(ButtonId::ThumbwheelScrollUp) == Action::HorizontalScrollRight,
        default_action(ButtonId::ThumbwheelScrollDown) == Action::HorizontalScrollLeft,
        default_action(ButtonId::GestureButton) == Action::MissionControl,
        default_action(a) == default_action(b) ==> a == b,
        !(a is GestureButton) ==> default_binding_view(a) == BindingView::Single(default_action(a)),
{
}

/// What each direction of a fresh gesture button does. No two directions do the
/// same, and every one of them is bound.
pub proof fn law_default_directions(a: GestureDirection, b: GestureDirection)
    ensures
        default_gesture_action(GestureDirection::Up) == Action::MissionControl,
        default_gesture_action(GestureDirection::Down) == Action::ShowDesktop,
        default_gesture_action(GestureDirection::Left) == Action::PrevTab,
        default_gesture_action(GestureDirection::Right) == Action::NextTab,
        default_gesture_action(GestureDirection::Click) == Action::AppExpose,
        default_gesture_action(a) == default_gesture_action(b) ==> a == b,
        default_gesture_map().contains_key(a),
        default_gesture_map()[a] == default_gesture_action(a),
        default_binding_view(ButtonId::GestureButton).direction(a) == Some(
            default_gesture_action(a),
        ),
{
}

/// What a click of a binding is: the single action, or what the click direction is
/// bound to, or nothing.
pub proof fn law_click_of_a_binding(
    action: Action,
    map: Map<GestureDirection, Action>,
    direction: GestureDirection,
)
    ensures
        BindingView::Single(action).click() == action,
        BindingView::Single(action).direction(direction) is None,
        map.contains_key(GestureDirection::Click) ==> BindingView::Gesture(map).click()
            == map[GestureDirection::Click],
        !map.contains_key(GestureDirection::Click) ==> BindingView::Gesture(map).click()
            == Action::DoNothing,
        BindingView::Gesture(map).direction(direction) == if map.contains_key(direction) {
            Some(map[direction])
        } else {
            None
        },
{
}

/// A single action becomes the only bound direction of a gesture binding, and has no
/// open directions to fill itself.
pub proof fn law_upgraded_single(action: Action, direction: GestureDirection)
    ensures
        BindingView::Single(action).upgraded() is Gesture,
        BindingView::Single(action).upgraded().direction(direction) == if direction
            == GestureDirection::Click {
            Some(action)
        } else {
            None
        },
        BindingView::Single(action).filled() == BindingView::Single(action),
{
}

/// A binding shows what it holds, and an action by itself becomes a single binding.
/// Buttons, directions and actions stand for themselves.
pub proof fn law_bindings_show_what_they_hold(
    action: Action,
    map: OrderedMap<GestureDirection, Action>,
    button: ButtonId,
    direction: GestureDirection,
)
    ensures
        Binding::Single(action)@ == BindingView::Single(action),
        Binding::Gesture(map)@ == BindingView::Gesture(map@),
        <Binding as vstd::std_specs::convert::FromSpec<Action>>::obeys_from_spec(),
        <Binding as vstd::std_specs::convert::FromSpec<Action>>::from_spec(action)
            == Binding::Single(action),
        action@ == action,
        button@ == button,
        direction@ == direction,
{
}

/// The two actions that carry something are not picked from the catalog, and only
/// the last preset has no label.
pub proof fn law_actions_that_carry_something(action: Action)
    ensures
        action.pickable() <==> !(action is SetDpiPreset) && !(action is CustomShortcut),
        action.has_label() <==> action != Action::SetDpiPreset(255),
{
}

/// What each button, direction, group and action is called.
pub proof fn law_labels(index: u8, combo: KeyCombo)
    ensures
        ButtonId::LeftClick.label_text() == "Left Click"@,
        ButtonId::RightClick.label_text() == "Right Click"@,
        ButtonId::MiddleClick.label_text() == "Middle Click"@,
        ButtonId::Back.label_text() == "Back"@,
        ButtonId::Forward.label_text() == "Forward"@,
        ButtonId::DpiToggle.label_text() == "DPI Toggle"@,
        ButtonId::Thumbwheel.label_text() == "Thumb Wheel"@,
        ButtonId::ThumbwheelScrollUp.label_text() == "Thumb Wheel Up"@,
        ButtonId::ThumbwheelScrollDown.label_text() == "Thumb Wheel Down"@,
        ButtonId::GestureButton.label_text() == "Gesture Button"@,
        GestureDirection::Up.label_text() == "Up"@,
        GestureDirection::Down.label_text() == "Down"@,
        GestureDirection::Left.label_text() == "Left"@,
        GestureDirection::Right.label_text() == "Right"@,
        GestureDirection::Click.label_text() == "Click"@,
        Category::Editing.label_text() == "EDITING"@,
        Category::Browser.label_text() == "BROWSER"@,
        Category::Media.label_text() == "MEDIA"@,
        Category::Mouse.label_text() == "MOUSE"@,
        Category::Dpi.label_text() == "DPI"@,
        Category::Scroll.label_text() == "SCROLL"@,
        Category::Navigation.label_text() == "NAVIGATION"@,
        Category::System.label_text() == "SYSTEM"@,
        Action::DoNothing.label_text() == "Do Nothing"@,
        Action::LeftClick.label_text() == "Left Click"@,
        Action::RightClick.label_text() == "Right Click"@,
        Action::MiddleClick.label_text() == "Middle Click"@,
        Action::MouseBack.label_text() == "Back (Button 4)"@,
        Action::MouseForward.label_text() == "Forward (Button 5)"@,
        Action::Copy.label_text() == "Copy"@,
        Action::Paste.label_text() == "Paste"@,
        Action::Cut.label_text() == "Cut"@,
        Action::Undo.label_text() == "Undo"@,
        Action::Redo.label_text() == "Redo"@,
        Action::SelectAll.label_text() == "Select All"@,
        Action::Find.label_text() == "Find"@,
        Action::Save.label_text() == "Save"@,
        Action::BrowserBack.label_text() == "Browser Back"@,
        Action::BrowserForward.label_text() == "Browser Forward"@,
        Action::NewTab.label_text() == "New Tab"@,
        Action::CloseTab.label_text() == "Close Tab"@,
        Action::ReopenTab.label_text() == "Reopen Tab"@,
        Action::NextTab.label_text() == "Next Tab"@,
        Action::PrevTab.label_text() == "Previous Tab"@,
        Action::ReloadPage.label_text() == "Reload Page"@,
        Action::MissionControl.label_text() == "Mission Control"@,
        Action::AppExpose.label_text() == "App Exposé"@,
        Action::PreviousDesktop.label_text() == "Previous Desktop"@,
        Action::NextDesktop.label_text() == "Next Desktop"@,
        Action::ShowDesktop.label_text() == "Show Desktop"@,
        Action::LaunchpadShow.label_text() == "Launchpad"@,
        Action::LockScreen.label_text() == "Lock Screen"@,
        Action::Screenshot.label_text() == "Screenshot"@,
        Action::CaptureRegion.label_text() == "Capture Region"@,
        Action::PlayPause.label_text() == "Play / Pause"@,
        Action::NextTrack.label_text() == "Next Track"@,
        Action::PrevTrack.label_text() == "Previous Track"@,
        Action::VolumeUp.label_text() == "Volume Up"@,
        Action::VolumeDown.label_text() == "Volume Down"@,
        Action::MuteVolume.label_text() == "Mute"@,
        Action::CycleDpiPresets.label_text() == "Cycle DPI Presets"@,
        Action::ToggleSmartShift.label_text() == "Toggle SmartShift"@,
        Action::ScrollUp.label_text() == "Scroll Up"@,
        Action::ScrollDown.label_text() == "Scroll Down"@,
        Action::HorizontalScrollLeft.label_text() == "Scroll Left"@,
        Action::HorizontalScrollRight.label_text() == "Scroll Right"@,
        GestureDirection::Up.glyph_text() == "↑"@,
        GestureDirection::Down.glyph_text() == "↓"@,
        GestureDirection::Left.glyph_text() == "←"@,
        GestureDirection::Right.glyph_text() == "→"@,
        GestureDirection::Click.glyph_text() == "·"@,
        Action::SetDpiPreset(index).label_text() == "DPI Preset "@ + crate::text::numeral(
            index as nat + 1,
            10,
            1,
        ),
        Action::CustomShortcut(combo).label_text() == combo.label_text(),
{
}

/// The group that each action is shown in.
pub proof fn law_groups(action: Action)
    ensures
        action.group() == Category::Mouse <==> (action is LeftClick || action is RightClick
            || action is MiddleClick || action is MouseBack || action is MouseForward),
        action.group() == Category::Editing <==> (action is Copy || action is Paste
            || action is Cut || action is Undo || action is Redo || action is SelectAll
            || action is Find || action is Save || action is CustomShortcut),
        action.group() == Category::Browser <==> (action is BrowserBack
            || action is BrowserForward || action is NewTab || action is CloseTab
            || action is ReopenTab || action is NextTab || action is PrevTab
            || action is ReloadPage),
        action.group() == Category::Navigation <==> (action is MissionControl
            || action is AppExpose || action is PreviousDesktop || action is NextDesktop
            || action is ShowDesktop || action is LaunchpadShow),
        action.group() == Category::System <==> (action is DoNothing || action is LockScreen
            || action is Screenshot || action is CaptureRegion),
        action.group() == Category::Media <==> (action is PlayPause || action is NextTrack
            || action is PrevTrack || action is VolumeUp || action is VolumeDown
            || action is MuteVolume),
        action.group() == Category::Dpi <==> (action is CycleDpiPresets || action is SetDpiPreset
            || action is ToggleSmartShift),
        action.group() == Category::Scroll <==> (action is ScrollUp || action is ScrollDown
            || action is HorizontalScrollLeft || action is HorizontalScrollRight),
{
}

/// The order of the catalog.
pub proof fn law_catalog_order()
    ensures
        Action::catalog_list() == seq![
            Action::LeftClick,
            Action::RightClick,
            Action::MiddleClick,
            Action::MouseBack,
            Action::MouseForward,
            Action::Copy,
            Action::Paste,
            Action::Cut,
            Action::Undo,
            Action::Redo,
            Action::SelectAll,
            Action::Find,
            Action::Save,
            Action::BrowserBack,
            Action::BrowserForward,
            Action::NewTab,
            Action::CloseTab,
            Action::ReopenTab,
            Action::NextTab,
            Action::PrevTab,
            Action::ReloadPage,
            Action::MissionControl,
            Action::AppExpose,
            Action::PreviousDesktop,
            Action::NextDesktop,
            Action::ShowDesktop,
            Action::LaunchpadShow,
            Action::DoNothing,
            Action::LockScreen,
            Action::Screenshot,
            Action::CaptureRegion,
            Action::PlayPause,
            Action::NextTrack,
            Action::PrevTrack,
            Action::VolumeUp,
            Action::VolumeDown,
            Action::MuteVolume,
            Action::CycleDpiPresets,
            Action::ToggleSmartShift,
            Action::ScrollUp,
            Action::ScrollDown,
            Action::HorizontalScrollLeft,
            Action::HorizontalScrollRight,
        ],
{
}

} // verus!
