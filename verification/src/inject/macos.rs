//! macOS: Quartz events, Dock notifications and symbolic hotkeys.
use vstd::prelude::*;
use super::{Skipped, SYNTHETIC_EVENT_USER_DATA};
use crate::binding::Action;
use crate::chord::{law_command_chords, law_control_chords, parsed, types, KeyCombo};

verus! {

// ---------------------------------------------------------------------------
// Key events
// ---------------------------------------------------------------------------

// Virtual key codes of the US ANSI layout, from `HIToolbox/Events.h`.
pub const VK_A: u16 = 0x00;

pub const VK_S: u16 = 0x01;

pub const VK_F: u16 = 0x03;

pub const VK_Z: u16 = 0x06;

pub const VK_X: u16 = 0x07;

pub const VK_C: u16 = 0x08;

pub const VK_V: u16 = 0x09;

pub const VK_Q: u16 = 0x0C;

pub const VK_W: u16 = 0x0D;

pub const VK_R: u16 = 0x0F;

pub const VK_T: u16 = 0x11;

pub const VK_3: u16 = 0x14;

pub const VK_4: u16 = 0x15;

pub const VK_RIGHT_BRACKET: u16 = 0x1E;

pub const VK_LEFT_BRACKET: u16 = 0x21;

pub const VK_TAB: u16 = 0x30;

/// Event flag of a held Shift.
pub const FLAG_SHIFT: u64 = 0x0002_0000;

/// Event flag of a held Control.
pub const FLAG_CONTROL: u64 = 0x0004_0000;

/// Event flag of a held Option.
pub const FLAG_ALTERNATE: u64 = 0x0008_0000;

/// Event flag of a held Command.
pub const FLAG_COMMAND: u64 = 0x0010_0000;

/// A key going down or up with modifiers held.
#[derive(Debug, Clone, Copy, PartialEq, Eq, Structural)]
pub struct KeyEvent {
    pub code: u16,
    pub down: bool,
    pub flags: u64,
}

/// A key that is pressed and released.
pub open spec fn key_events(code: u16, flags: u64) -> Seq<KeyEvent> {
    seq![KeyEvent { code, down: true, flags }, KeyEvent { code, down: false, flags }]
}

/// The events of a key that is pressed and released with `flags` held.
pub fn post_key(vk: u16, flags: u64) -> (r: Vec<KeyEvent>)
    ensures
        r@ == key_events(vk, flags),
{
    let r = vec![
        KeyEvent { code: vk, down: true, flags },
        KeyEvent { code: vk, down: false, flags },
    ];
    assert(r@ =~= key_events(vk, flags));
    r
}

/// `flag` where `mask` has the bit `bit`, else no flag.
pub open spec fn flag_where(mask: u8, bit: u8, flag: u64) -> u64 {
    if mask & bit != 0 {
        flag
    } else {
        0
    }
}

/// The event flags for a modifier bitmask: one for each modifier.
pub open spec fn flags_of(modifiers: u8) -> u64 {
    (flag_where(modifiers, KeyCombo::MOD_CMD, FLAG_COMMAND) + flag_where(
        modifiers,
        KeyCombo::MOD_SHIFT,
        FLAG_SHIFT,
    ) + flag_where(modifiers, KeyCombo::MOD_CTRL, FLAG_CONTROL) + flag_where(
        modifiers,
        KeyCombo::MOD_OPTION,
        FLAG_ALTERNATE,
    )) as u64
}

fn modifier_flags(modifiers: u8) -> (r: u64)
    ensures
        r == flags_of(modifiers),
{
    let cmd: u64 = if modifiers & KeyCombo::MOD_CMD != 0 {
        FLAG_COMMAND
    } else {
        0
    };
    let shift: u64 = if modifiers & KeyCombo::MOD_SHIFT != 0 {
        FLAG_SHIFT
    } else {
        0
    };
    let ctrl: u64 = if modifiers & KeyCombo::MOD_CTRL != 0 {
        FLAG_CONTROL
    } else {
        0
    };
    let option: u64 = if modifiers & KeyCombo::MOD_OPTION != 0 {
        FLAG_ALTERNATE
    } else {
        0
    };
    let flags: u64 = cmd | shift | ctrl | option;
    assert(flags == cmd + shift + ctrl + option) by (bit_vector)
        requires
            flags == cmd | shift | ctrl | option,
            cmd == 0x0010_0000u64 || cmd == 0,
            shift == 0x0002_0000u64 || shift == 0,
            ctrl == 0x0004_0000u64 || ctrl == 0,
            option == 0x0008_0000u64 || option == 0,
    ;
    flags
}

// ---------------------------------------------------------------------------
// Mouse events
// ---------------------------------------------------------------------------

/// A mouse button that Quartz has a name for.
#[derive(Debug, Clone, Copy, PartialEq, Eq, Structural)]
pub enum MouseButton {
    Left,
    Right,
    Center,
}

/// The type of a mouse event.
#[derive(Debug, Clone, Copy, PartialEq, Eq, Structural)]
pub enum MouseKind {
    LeftDown,
    LeftUp,
    RightDown,
    RightUp,
    OtherDown,
    OtherUp,
}

/// A mouse event at the cursor.
#[derive(Debug, Clone, Copy, PartialEq, Eq, Structural)]
pub struct MouseEvent {
    pub kind: MouseKind,
    pub button: MouseButton,
    /// The number of a button that has no name.
    pub number: Option<i64>,
    pub user_data: i64,
}

/// A click: down, then up, both stamped as synthetic.
pub open spec fn click_events(button: MouseButton) -> Seq<MouseEvent> {
    let (down, up) = match button {
        MouseButton::Left => (MouseKind::LeftDown, MouseKind::LeftUp),
        MouseButton::Right => (MouseKind::RightDown, MouseKind::RightUp),
        MouseButton::Center => (MouseKind::OtherDown, MouseKind::OtherUp),
    };
    seq![
        MouseEvent { kind: down, button, number: None, user_data: SYNTHETIC_EVENT_USER_DATA },
        MouseEvent { kind: up, button, number: None, user_data: SYNTHETIC_EVENT_USER_DATA },
    ]
}

/// The events of a click.
pub fn post_click(button: MouseButton) -> (r: Vec<MouseEvent>)
    ensures
        r@ == click_events(button),
{
    let (down, up) = match button {
        MouseButton::Left => (MouseKind::LeftDown, MouseKind::LeftUp),
        MouseButton::Right => (MouseKind::RightDown, MouseKind::RightUp),
        MouseButton::Center => (MouseKind::OtherDown, MouseKind::OtherUp),
    };
    let user_data: i64 = SYNTHETIC_EVENT_USER_DATA;
    let r = vec![
        MouseEvent { kind: down, button, number: None, user_data },
        MouseEvent { kind: up, button, number: None, user_data },
    ];
    assert(r@ =~= click_events(button));
    r
}

/// A click of an extra button: an event of the center button that carries another
/// number.
pub open spec fn other_button_events(number: i64) -> Seq<MouseEvent> {
    seq![
        MouseEvent {
            kind: MouseKind::OtherDown,
            button: MouseButton::Center,
            number: Some(number),
            user_data: SYNTHETIC_EVENT_USER_DATA,
        },
        MouseEvent {
            kind: MouseKind::OtherUp,
            button: MouseButton::Center,
            number: Some(number),
            user_data: SYNTHETIC_EVENT_USER_DATA,
        },
    ]
}

/// The events of a click of an extra button, by its number (3 is "back", 4 is
/// "forward").
pub fn post_other_button(button_number: i64) -> (r: Vec<MouseEvent>)
    ensures
        r@ == other_button_events(button_number),
{
    let button = MouseButton::Center;
    let number = Some(button_number);
    let user_data: i64 = SYNTHETIC_EVENT_USER_DATA;
    let r = vec![
        MouseEvent { kind: MouseKind::OtherDown, button, number, user_data },
        MouseEvent { kind: MouseKind::OtherUp, button, number, user_data },
    ];
    assert(r@ =~= other_button_events(button_number));
    r
}

/// What a scroll event counts in.
#[derive(Debug, Clone, Copy, PartialEq, Eq, Structural)]
pub enum ScrollUnit {
    Pixel,
    Line,
}

/// A scroll event.
#[derive(Debug, Clone, Copy, PartialEq, Eq, Structural)]
pub struct ScrollEvent {
    pub unit: ScrollUnit,
    pub vertical: i32,
    pub horizontal: i32,
    pub user_data: i64,
}

/// The scroll event with these distances, stamped as synthetic.
pub open spec fn scroll_by(unit: ScrollUnit, vertical: int, horizontal: int) -> ScrollEvent {
    ScrollEvent {
        unit,
        vertical: vertical as i32,
        horizontal: horizontal as i32,
        user_data: SYNTHETIC_EVENT_USER_DATA,
    }
}

/// The event of a scroll action. Other actions have none.
pub open spec fn scroll_event(action: Action) -> Option<ScrollEvent> {
    match action {
        Action::ScrollUp => Some(scroll_by(ScrollUnit::Pixel, 3, 0)),
        Action::ScrollDown => Some(scroll_by(ScrollUnit::Pixel, -3, 0)),
        Action::HorizontalScrollLeft => Some(scroll_by(ScrollUnit::Pixel, 0, -3)),
        Action::HorizontalScrollRight => Some(scroll_by(ScrollUnit::Pixel, 0, 3)),
        _ => None,
    }
}

/// The event of a scroll action, if it is one.
pub fn post_scroll(action: &Action) -> (r: Option<ScrollEvent>)
    ensures
        r == scroll_event(*action),
{
    let (vertical, horizontal): (i32, i32) = match action {
        Action::ScrollUp => (3, 0),
        Action::ScrollDown => (-3, 0),
        Action::HorizontalScrollLeft => (0, -3),
        Action::HorizontalScrollRight => (0, 3),
        _ => {
            return None;
        },
    };
    Some(
        ScrollEvent {
            unit: ScrollUnit::Pixel,
            vertical,
            horizontal,
            user_data: SYNTHETIC_EVENT_USER_DATA,
        },
    )
}

/// The event that re-injects a turn of the thumb wheel by `delta` lines. Lines
/// suit its ratchet-like increments better than pixels.
pub fn post_horizontal_scroll(delta: i32) -> (r: ScrollEvent)
    ensures
        r == scroll_by(ScrollUnit::Line, 0, delta as int),
{
    ScrollEvent {
        unit: ScrollUnit::Line,
        vertical: 0,
        horizontal: delta,
        user_data: SYNTHETIC_EVENT_USER_DATA,
    }
}

// ---------------------------------------------------------------------------
// Media keys
// ---------------------------------------------------------------------------

// Key types from `IOKit/hidsystem/ev_keymap.h`.
pub const NX_KEYTYPE_SOUND_UP: i32 = 0;

pub const NX_KEYTYPE_SOUND_DOWN: i32 = 1;

pub const NX_KEYTYPE_MUTE: i32 = 7;

pub const NX_KEYTYPE_PLAY: i32 = 16;

pub const NX_KEYTYPE_NEXT: i32 = 17;

pub const NX_KEYTYPE_PREVIOUS: i32 = 18;

/// The state of a media key that goes down.
pub const NX_KEY_DOWN: i32 = 0x0A;

/// The state of a media key that goes up.
pub const NX_KEY_UP: i32 = 0x0B;

/// The subtype of a system-defined event that carries a media key.
pub const NX_SUBTYPE_AUX_CONTROL_BUTTONS: i16 = 8;

/// The data of a media key event: the key type in the high word, the key state in
/// the byte below, and no repeat.
pub open spec fn media_data(nx_key: i32, state: i32) -> i32 {
    (nx_key << 16) | (state << 8)
}

/// The data of the two events of a media key: down, then up.
pub open spec fn media_events(nx_key: i32) -> Seq<i32> {
    seq![media_data(nx_key, NX_KEY_DOWN), media_data(nx_key, NX_KEY_UP)]
}

/// The data of the two events of a media key. Media and volume keys are
/// system-defined events: as ordinary key events they would be ignored.
pub fn post_media_key(nx_key: i32) -> (r: Vec<i32>)
    ensures
        r@ == media_events(nx_key),
{
    let r = vec![
        (nx_key << 16) | (NX_KEY_DOWN << 8),
        (nx_key << 16) | (NX_KEY_UP << 8),
    ];
    assert(r@ =~= media_events(nx_key));
    r
}

// ---------------------------------------------------------------------------
// Dock and Spaces
// ---------------------------------------------------------------------------

/// A notification to the Dock, which drives these window actions. It fires them
/// whatever the user's keyboard settings are.
#[derive(Debug, Clone, Copy, PartialEq, Eq, Structural)]
pub enum DockNotice {
    MissionControl,
    AppExpose,
    ShowDesktop,
    Launchpad,
}

impl DockNotice {
    /// The name of the notification.
    pub open spec fn name_text(self) -> Seq<char> {
        match self {
            DockNotice::MissionControl => "com.apple.expose.awake"@,
            DockNotice::AppExpose => "com.apple.expose.front.awake"@,
            DockNotice::ShowDesktop => "com.apple.showdesktop.awake"@,
            DockNotice::Launchpad => "com.apple.launchpad.toggle"@,
        }
    }

    /// The name under which the Dock takes the notification.
    #[must_use]
    pub fn name(self) -> (r: &'static str)
        ensures
            r@ == self.name_text(),
    {
        match self {
            DockNotice::MissionControl => "com.apple.expose.awake",
            DockNotice::AppExpose => "com.apple.expose.front.awake",
            DockNotice::ShowDesktop => "com.apple.showdesktop.awake",
            DockNotice::Launchpad => "com.apple.launchpad.toggle",
        }
    }
}

/// The symbolic hotkey "Move left a space".
pub const SPACE_LEFT: u32 = 79;

/// The symbolic hotkey "Move right a space".
pub const SPACE_RIGHT: u32 = 81;

/// A step of firing a symbolic hotkey.
#[derive(Debug, Clone, Copy, PartialEq, Eq, Structural)]
pub enum HotkeyStep {
    /// Enable or disable the hotkey.
    SetEnabled(bool),
    /// Press and release the hotkey's key, with its modifiers as flags.
    Press(u16, u32),
}

/// The steps of firing a symbolic hotkey: none where its key cannot be looked up. A
/// hotkey that the user has disabled is enabled for the moment of the press.
pub open spec fn hotkey_steps(key: Option<(u16, u32)>, enabled: bool) -> Seq<HotkeyStep> {
    match key {
        None => Seq::empty(),
        Some((code, modifiers)) => if enabled {
            seq![HotkeyStep::Press(code, modifiers)]
        } else {
            seq![
                HotkeyStep::SetEnabled(true),
                HotkeyStep::Press(code, modifiers),
                HotkeyStep::SetEnabled(false),
            ]
        },
    }
}

/// The steps of firing a symbolic hotkey, given the key and modifiers that the
/// system has for it, if any, and whether it is enabled.
pub fn post_symbolic_hotkey(key: Option<(u16, u32)>, was_enabled: bool) -> (r: Vec<HotkeyStep>)
    ensures
        r@ == hotkey_steps(key, was_enabled),
{
    let mut steps: Vec<HotkeyStep> = Vec::new();
    if let Some((code, modifiers)) = key {
        if !was_enabled {
            steps.push(HotkeyStep::SetEnabled(true));
        }
        steps.push(HotkeyStep::Press(code, modifiers));
        if !was_enabled {
            steps.push(HotkeyStep::SetEnabled(false));
        }
    }
    assert(steps@ =~= hotkey_steps(key, was_enabled));
    steps
}

// ---------------------------------------------------------------------------
// Actions
// ---------------------------------------------------------------------------

/// What an action comes to.
#[derive(Debug)]
pub enum MacStep {
    /// Post these key events, in this order.
    Keys(Vec<KeyEvent>),
    /// Post these mouse events, in this order.
    Mouse(Vec<MouseEvent>),
    /// Post this scroll event.
    Scroll(ScrollEvent),
    /// Post media key events with these data, in this order.
    Media(Vec<i32>),
    /// Send this notification.
    Dock(DockNotice),
    /// Fire this symbolic hotkey: see [`post_symbolic_hotkey`].
    Hotkey(u32),
    /// Nothing.
    Skip(Skipped),
}

/// What a [`MacStep`] stands for.
pub enum MacStepView {
    Keys(Seq<KeyEvent>),
    Mouse(Seq<MouseEvent>),
    Scroll(ScrollEvent),
    Media(Seq<i32>),
    Dock(DockNotice),
    Hotkey(u32),
    Skip(Skipped),
}

impl View for MacStep {
    type V = MacStepView;

    open spec fn view(&self) -> MacStepView {
        match self {
            MacStep::Keys(events) => MacStepView::Keys(events@),
            MacStep::Mouse(events) => MacStepView::Mouse(events@),
            MacStep::Scroll(event) => MacStepView::Scroll(*event),
            MacStep::Media(data) => MacStepView::Media(data@),
            MacStep::Dock(notice) => MacStepView::Dock(*notice),
            MacStep::Hotkey(hotkey) => MacStepView::Hotkey(*hotkey),
            MacStep::Skip(why) => MacStepView::Skip(*why),
        }
    }
}

/// What a recorded shortcut comes to.
pub open spec fn shortcut_step(modifiers: u8, key_code: u16) -> MacStepView {
    if key_code == 0 {
        MacStepView::Skip(Skipped::NoKeyCode)
    } else {
        MacStepView::Keys(key_events(key_code, flags_of(modifiers)))
    }
}

/// What each action comes to.
pub open spec fn mac_step(action: Action) -> MacStepView {
    match action {
        Action::DoNothing => MacStepView::Skip(Skipped::Suppressed),
        Action::LeftClick => MacStepView::Mouse(click_events(MouseButton::Left)),
        Action::RightClick => MacStepView::Mouse(click_events(MouseButton::Right)),
        Action::MiddleClick => MacStepView::Mouse(click_events(MouseButton::Center)),
        Action::MouseBack => MacStepView::Mouse(other_button_events(3)),
        Action::MouseForward => MacStepView::Mouse(other_button_events(4)),
        Action::Copy => MacStepView::Keys(key_events(VK_C, FLAG_COMMAND)),
        Action::Paste => MacStepView::Keys(key_events(VK_V, FLAG_COMMAND)),
        Action::Cut => MacStepView::Keys(key_events(VK_X, FLAG_COMMAND)),
        Action::Undo => MacStepView::Keys(key_events(VK_Z, FLAG_COMMAND)),
        Action::Redo => MacStepView::Keys(key_events(VK_Z, FLAG_COMMAND | FLAG_SHIFT)),
        Action::SelectAll => MacStepView::Keys(key_events(VK_A, FLAG_COMMAND)),
        Action::Find => MacStepView::Keys(key_events(VK_F, FLAG_COMMAND)),
        Action::Save => MacStepView::Keys(key_events(VK_S, FLAG_COMMAND)),
        Action::BrowserBack => MacStepView::Keys(key_events(VK_LEFT_BRACKET, FLAG_COMMAND)),
        Action::BrowserForward => MacStepView::Keys(key_events(VK_RIGHT_BRACKET, FLAG_COMMAND)),
        Action::NewTab => MacStepView::Keys(key_events(VK_T, FLAG_COMMAND)),
        Action::CloseTab => MacStepView::Keys(key_events(VK_W, FLAG_COMMAND)),
        Action::ReopenTab => MacStepView::Keys(key_events(VK_T, FLAG_COMMAND | FLAG_SHIFT)),
        Action::NextTab => MacStepView::Keys(key_events(VK_TAB, FLAG_CONTROL)),
        Action::PrevTab => MacStepView::Keys(key_events(VK_TAB, FLAG_CONTROL | FLAG_SHIFT)),
        Action::ReloadPage => MacStepView::Keys(key_events(VK_R, FLAG_COMMAND)),
        Action::MissionControl => MacStepView::Dock(DockNotice::MissionControl),
        Action::AppExpose => MacStepView::Dock(DockNotice::AppExpose),
        Action::PreviousDesktop => MacStepView::Hotkey(SPACE_LEFT),
        Action::NextDesktop => MacStepView::Hotkey(SPACE_RIGHT),
        Action::ShowDesktop => MacStepView::Dock(DockNotice::ShowDesktop),
        Action::LaunchpadShow => MacStepView::Dock(DockNotice::Launchpad),
        Action::LockScreen => MacStepView::Keys(key_events(VK_Q, FLAG_COMMAND | FLAG_CONTROL)),
        Action::Screenshot => MacStepView::Keys(key_events(VK_3, FLAG_COMMAND | FLAG_SHIFT)),
        Action::CaptureRegion => MacStepView::Keys(
            key_events(VK_4, FLAG_COMMAND | FLAG_SHIFT | FLAG_CONTROL),
        ),
        Action::PlayPause => MacStepView::Media(media_events(NX_KEYTYPE_PLAY)),
        Action::NextTrack => MacStepView::Media(media_events(NX_KEYTYPE_NEXT)),
        Action::PrevTrack => MacStepView::Media(media_events(NX_KEYTYPE_PREVIOUS)),
        Action::VolumeUp => MacStepView::Media(media_events(NX_KEYTYPE_SOUND_UP)),
        Action::VolumeDown => MacStepView::Media(media_events(NX_KEYTYPE_SOUND_DOWN)),
        Action::MuteVolume => MacStepView::Media(media_events(NX_KEYTYPE_MUTE)),
        Action::CycleDpiPresets => MacStepView::Skip(Skipped::DeviceSide),
        Action::SetDpiPreset(_) => MacStepView::Skip(Skipped::DeviceSide),
        Action::ToggleSmartShift => MacStepView::Skip(Skipped::DeviceSide),
        Action::ScrollUp => MacStepView::Scroll(scroll_by(ScrollUnit::Pixel, 3, 0)),
        Action::ScrollDown => MacStepView::Scroll(scroll_by(ScrollUnit::Pixel, -3, 0)),
        Action::HorizontalScrollLeft => MacStepView::Scroll(scroll_by(ScrollUnit::Pixel, 0, -3)),
        Action::HorizontalScrollRight => MacStepView::Scroll(scroll_by(ScrollUnit::Pixel, 0, 3)),
        Action::CustomShortcut(combo) => shortcut_step(combo.modifiers, combo.key_code),
    }
}

/// The events of an action.
///
/// Clicks are for buttons that are remapped to another click: one that is left on
/// its own click never gets here. Screenshot is Cmd+Shift+3, and capturing a
/// region to the clipboard Cmd+Shift+Ctrl+4. A shortcut without a key is skipped,
/// so that no bare modifiers are pressed.
#[must_use]
pub fn execute_macos(action: &Action) -> (r: MacStep)
    ensures
        r@ == mac_step(*action),
{
    let cmd: u64 = FLAG_COMMAND;
    let shift: u64 = FLAG_SHIFT;
    let ctrl: u64 = FLAG_CONTROL;
    match action {
        Action::DoNothing => MacStep::Skip(Skipped::Suppressed),
        Action::LeftClick => MacStep::Mouse(post_click(MouseButton::Left)),
        Action::RightClick => MacStep::Mouse(post_click(MouseButton::Right)),
        Action::MiddleClick => MacStep::Mouse(post_click(MouseButton::Center)),
        Action::MouseBack => MacStep::Mouse(post_other_button(3)),
        Action::MouseForward => MacStep::Mouse(post_other_button(4)),
        Action::Copy => MacStep::Keys(post_key(VK_C, cmd)),
        Action::Paste => MacStep::Keys(post_key(VK_V, cmd)),
        Action::Cut => MacStep::Keys(post_key(VK_X, cmd)),
        Action::Undo => MacStep::Keys(post_key(VK_Z, cmd)),
        Action::Redo => MacStep::Keys(post_key(VK_Z, cmd | shift)),
        Action::SelectAll => MacStep::Keys(post_key(VK_A, cmd)),
        Action::Find => MacStep::Keys(post_key(VK_F, cmd)),
        Action::Save => MacStep::Keys(post_key(VK_S, cmd)),
        Action::BrowserBack => MacStep::Keys(post_key(VK_LEFT_BRACKET, cmd)),
        Action::BrowserForward => MacStep::Keys(post_key(VK_RIGHT_BRACKET, cmd)),
        Action::NewTab => MacStep::Keys(post_key(VK_T, cmd)),
        Action::CloseTab => MacStep::Keys(post_key(VK_W, cmd)),
        Action::ReopenTab => MacStep::Keys(post_key(VK_T, cmd | shift)),
        Action::NextTab => MacStep::Keys(post_key(VK_TAB, ctrl)),
        Action::PrevTab => MacStep::Keys(post_key(VK_TAB, ctrl | shift)),
        Action::ReloadPage => MacStep::Keys(post_key(VK_R, cmd)),
        Action::MissionControl => MacStep::Dock(DockNotice::MissionControl),
        Action::AppExpose => MacStep::Dock(DockNotice::AppExpose),
        Action::PreviousDesktop => MacStep::Hotkey(SPACE_LEFT),
        Action::NextDesktop => MacStep::Hotkey(SPACE_RIGHT),
        Action::ShowDesktop => MacStep::Dock(DockNotice::ShowDesktop),
        Action::LaunchpadShow => MacStep::Dock(DockNotice::Launchpad),
        Action::LockScreen => MacStep::Keys(post_key(VK_Q, cmd | ctrl)),
        Action::Screenshot => MacStep::Keys(post_key(VK_3, cmd | shift)),
        Action::CaptureRegion => MacStep::Keys(post_key(VK_4, cmd | shift | ctrl)),
        Action::PlayPause => MacStep::Media(post_media_key(NX_KEYTYPE_PLAY)),
        Action::NextTrack => MacStep::Media(post_media_key(NX_KEYTYPE_NEXT)),
        Action::PrevTrack => MacStep::Media(post_media_key(NX_KEYTYPE_PREVIOUS)),
        Action::VolumeUp => MacStep::Media(post_media_key(NX_KEYTYPE_SOUND_UP)),
        Action::VolumeDown => MacStep::Media(post_media_key(NX_KEYTYPE_SOUND_DOWN)),
        Action::MuteVolume => MacStep::Media(post_media_key(NX_KEYTYPE_MUTE)),
        Action::CycleDpiPresets | Action::SetDpiPreset(_) | Action::ToggleSmartShift => {
            MacStep::Skip(Skipped::DeviceSide)
        },
        Action::ScrollUp
        | Action::ScrollDown
        | Action::HorizontalScrollLeft
        | Action::HorizontalScrollRight => match post_scroll(action) {
            Some(event) => MacStep::Scroll(event),
            None => MacStep::Skip(Skipped::NoEquivalent),
        },
        Action::CustomShortcut(combo) => {
            if combo.key_code == 0 {
                return MacStep::Skip(Skipped::NoKeyCode);
            }
            MacStep::Keys(post_key(combo.key_code, modifier_flags(combo.modifiers)))
        },
    }
}

// ---------------------------------------------------------------------------
// Laws
// ---------------------------------------------------------------------------

/// Every mouse and scroll event that an action comes to carries the stamp of a
/// synthetic event, and the thumb wheel's does too.
pub proof fn law_mouse_events_are_stamped(action: Action, i: int, delta: i32)
    ensures
        mac_step(action) matches MacStepView::Mouse(events) ==> 0 <= i < events.len()
            ==> events[i].user_data == SYNTHETIC_EVENT_USER_DATA,
        mac_step(action) matches MacStepView::Scroll(event) ==> event.user_data
            == SYNTHETIC_EVENT_USER_DATA,
        scroll_by(ScrollUnit::Line, 0, delta as int).user_data == SYNTHETIC_EVENT_USER_DATA,
        SYNTHETIC_EVENT_USER_DATA != 0,
{
}

/// A recorded chord holds exactly the modifiers that were recorded.
pub proof fn law_flags_follow_modifiers(modifiers: u8)
    ensures
        flags_of(modifiers) & FLAG_COMMAND != 0 <==> modifiers & KeyCombo::MOD_CMD != 0,
        flags_of(modifiers) & FLAG_SHIFT != 0 <==> modifiers & KeyCombo::MOD_SHIFT != 0,
        flags_of(modifiers) & FLAG_CONTROL != 0 <==> modifiers & KeyCombo::MOD_CTRL != 0,
        flags_of(modifiers) & FLAG_ALTERNATE != 0 <==> modifiers & KeyCombo::MOD_OPTION != 0,
{
    let cmd = flag_where(modifiers, KeyCombo::MOD_CMD, FLAG_COMMAND);
    let shift = flag_where(modifiers, KeyCombo::MOD_SHIFT, FLAG_SHIFT);
    let ctrl = flag_where(modifiers, KeyCombo::MOD_CTRL, FLAG_CONTROL);
    let option = flag_where(modifiers, KeyCombo::MOD_OPTION, FLAG_ALTERNATE);
    let flags = flags_of(modifiers);
    assert((flags & 0x0010_0000u64 != 0 <==> cmd != 0) && (flags & 0x0002_0000u64 != 0 <==> shift
        != 0) && (flags & 0x0004_0000u64 != 0 <==> ctrl != 0) && (flags & 0x0008_0000u64 != 0
        <==> option != 0)) by (bit_vector)
        requires
            flags == cmd + shift + ctrl + option,
            cmd == 0x0010_0000u64 || cmd == 0,
            shift == 0x0002_0000u64 || shift == 0,
            ctrl == 0x0004_0000u64 || ctrl == 0,
            option == 0x0008_0000u64 || option == 0,
    ;
}

/// The data of a media key event holds the key type above the key state.
pub proof fn law_media_data_layout(nx_key: i32, state: i32)
    requires
        0 <= nx_key < 0x8000,
        0 <= state < 0x100,
    ensures
        media_data(nx_key, state) == nx_key * 0x1_0000 + state * 0x100,
{
    let data = media_data(nx_key, state);
    assert(data == nx_key * 0x1_0000 + state * 0x100) by (bit_vector)
        requires
            data == (nx_key << 16) | (state << 8),
            0 <= nx_key < 0x8000,
            0 <= state < 0x100,
    ;
}

/// Whether a hotkey is enabled after some steps.
pub open spec fn enabled_after(enabled: bool, steps: Seq<HotkeyStep>) -> bool
    decreases steps.len(),
{
    if steps.len() == 0 {
        enabled
    } else {
        match steps.last() {
            HotkeyStep::SetEnabled(on) => on,
            HotkeyStep::Press(_, _) => enabled_after(enabled, steps.drop_last()),
        }
    }
}

/// Firing a hotkey leaves it enabled or disabled as the user had it, and it is
/// enabled at the moment of the press.
pub proof fn law_hotkey_is_restored(key: Option<(u16, u32)>, enabled: bool, i: int)
    ensures
        enabled_after(enabled, hotkey_steps(key, enabled)) == enabled,
        0 <= i < hotkey_steps(key, enabled).len() && hotkey_steps(key, enabled)[i] is Press
            ==> enabled_after(enabled, hotkey_steps(key, enabled).take(i)),
        key is Some ==> exists|j: int|
            0 <= j < hotkey_steps(key, enabled).len() && #[trigger] hotkey_steps(key, enabled)[j]
                == HotkeyStep::Press(key->Some_0.0, key->Some_0.1),
{
    reveal_with_fuel(enabled_after, 4);
    let steps = hotkey_steps(key, enabled);
    if let Some((code, modifiers)) = key {
        if enabled {
            assert(steps.drop_last() =~= Seq::empty());
            assert(steps[0] == HotkeyStep::Press(code, modifiers));
        } else {
            assert(steps[1] == HotkeyStep::Press(code, modifiers));
        }
    }
}

/// The key codes, flags and numbers of the macOS headers, and the stamp of a synthetic
/// event.
pub proof fn law_codes()
    ensures
        VK_A == 0x00,
        VK_S == 0x01,
        VK_F == 0x03,
        VK_Z == 0x06,
        VK_X == 0x07,
        VK_C == 0x08,
        VK_V == 0x09,
        VK_Q == 0x0C,
        VK_W == 0x0D,
        VK_R == 0x0F,
        VK_T == 0x11,
        VK_3 == 0x14,
        VK_4 == 0x15,
        VK_RIGHT_BRACKET == 0x1E,
        VK_LEFT_BRACKET == 0x21,
        VK_TAB == 0x30,
        FLAG_SHIFT == 0x0002_0000,
        FLAG_CONTROL == 0x0004_0000,
        FLAG_ALTERNATE == 0x0008_0000,
        FLAG_COMMAND == 0x0010_0000,
        NX_KEYTYPE_SOUND_UP == 0,
        NX_KEYTYPE_SOUND_DOWN == 1,
        NX_KEYTYPE_MUTE == 7,
        NX_KEYTYPE_PLAY == 16,
        NX_KEYTYPE_NEXT == 17,
        NX_KEYTYPE_PREVIOUS == 18,
        NX_KEY_DOWN == 0x0A,
        NX_KEY_UP == 0x0B,
        NX_SUBTYPE_AUX_CONTROL_BUTTONS == 8,
        SPACE_LEFT == 79,
        SPACE_RIGHT == 81,
        SYNTHETIC_EVENT_USER_DATA == 0x4F4C_4749,
{
}

/// A key goes down and then up, with the same modifiers held.
pub proof fn law_key_goes_down_and_up(code: u16, flags: u64)
    ensures
        key_events(code, flags).len() == 2,
        key_events(code, flags)[0] == (KeyEvent { code, down: true, flags }),
        key_events(code, flags)[1] == (KeyEvent { code, down: false, flags }),
{
}

/// A click goes down and then up. An extra button is an event of the center button that
/// carries the button's number.
pub proof fn law_click_goes_down_and_up(button: MouseButton, number: i64)
    ensures
        click_events(button).len() == 2,
        click_events(button)[0].button == button && click_events(button)[1].button == button,
        click_events(button)[0].number is None && click_events(button)[1].number is None,
        click_events(button)[0].user_data == SYNTHETIC_EVENT_USER_DATA,
        click_events(button)[1].user_data == SYNTHETIC_EVENT_USER_DATA,
        click_events(MouseButton::Left)[0].kind == MouseKind::LeftDown,
        click_events(MouseButton::Left)[1].kind == MouseKind::LeftUp,
        click_events(MouseButton::Right)[0].kind == MouseKind::RightDown,
        click_events(MouseButton::Right)[1].kind == MouseKind::RightUp,
        click_events(MouseButton::Center)[0].kind == MouseKind::OtherDown,
        click_events(MouseButton::Center)[1].kind == MouseKind::OtherUp,
        other_button_events(number).len() == 2,
        other_button_events(number)[0] == (MouseEvent {
            number: Some(number),
            ..click_events(MouseButton::Center)[0]
        }),
        other_button_events(number)[1] == (MouseEvent {
            number: Some(number),
            ..click_events(MouseButton::Center)[1]
        }),
{
}

/// A scroll event keeps its unit and its two distances.
pub proof fn law_scroll_distances(unit: ScrollUnit, vertical: i32, horizontal: i32)
    ensures
        scroll_by(unit, vertical as int, horizontal as int).unit == unit,
        scroll_by(unit, vertical as int, horizontal as int).vertical == vertical,
        scroll_by(unit, vertical as int, horizontal as int).horizontal == horizontal,
{
}

/// A scroll action moves three pixels, up and right being positive, and no other action
/// scrolls.
pub proof fn law_scroll_actions(action: Action)
    ensures
        mac_step(Action::ScrollUp) == MacStepView::Scroll(scroll_by(ScrollUnit::Pixel, 3, 0)),
        mac_step(Action::ScrollDown) == MacStepView::Scroll(scroll_by(ScrollUnit::Pixel, -3, 0)),
        mac_step(Action::HorizontalScrollRight) == MacStepView::Scroll(
            scroll_by(ScrollUnit::Pixel, 0, 3),
        ),
        mac_step(Action::HorizontalScrollLeft) == MacStepView::Scroll(
            scroll_by(ScrollUnit::Pixel, 0, -3),
        ),
        scroll_event(action) is Some <==> (action is ScrollUp || action is ScrollDown
            || action is HorizontalScrollLeft || action is HorizontalScrollRight),
        scroll_event(action) matches Some(event) ==> mac_step(action) == MacStepView::Scroll(
            event,
        ),
        mac_step(action) is Scroll ==> scroll_event(action) is Some,
{
}

/// The flags that are held for a chord, one for each modifier.
pub proof fn law_flags(modifiers: u8)
    ensures
        flags_of(modifiers) == if modifiers & 1 != 0 {
            0x10_0000int
        } else {
            0
        } + if modifiers & 2 != 0 {
            0x2_0000int
        } else {
            0
        } + if modifiers & 4 != 0 {
            0x4_0000int
        } else {
            0
        } + if modifiers & 8 != 0 {
            0x8_0000int
        } else {
            0
        },
{
}

/// A recorded shortcut presses its key with its modifiers held, or nothing where it has no
/// key.
pub proof fn law_recorded_shortcut(combo: KeyCombo)
    ensures
        combo.key_code == 0 ==> mac_step(Action::CustomShortcut(combo)) == MacStepView::Skip(
            Skipped::NoKeyCode,
        ),
        combo.key_code != 0 ==> mac_step(Action::CustomShortcut(combo)) == MacStepView::Keys(
            key_events(combo.key_code, flags_of(combo.modifiers)),
        ),
        shortcut_step(combo.modifiers, combo.key_code) == mac_step(Action::CustomShortcut(combo)),
{
}

/// Whether an action presses the keys of the chord that `text` writes.
#[verifier::opaque]
pub open spec fn presses(action: Action, text: Seq<char>) -> bool {
    parsed(text) matches Ok(chord) && mac_step(action) == MacStepView::Keys(
        key_events(chord.key_code, flags_of(chord.modifiers)),
    )
}

proof fn lemma_presses(action: Action, text: Seq<char>, modifiers: u8, key_code: u16)
    requires
        types(text, modifiers, key_code),
        mac_step(action) == MacStepView::Keys(key_events(key_code, flags_of(modifiers))),
    ensures
        presses(action, text),
{
    reveal(types);
    reveal(presses);
}

/// Each editing, browser, lock and capture action presses the chord that it is known by.
pub proof fn law_actions_press_their_chords()
    ensures
        presses(Action::Copy, "Cmd+C"@),
        presses(Action::Paste, "Cmd+V"@),
        presses(Action::Cut, "Cmd+X"@),
        presses(Action::Undo, "Cmd+Z"@),
        presses(Action::Redo, "Cmd+Shift+Z"@),
        presses(Action::SelectAll, "Cmd+A"@),
        presses(Action::Find, "Cmd+F"@),
        presses(Action::Save, "Cmd+S"@),
        presses(Action::BrowserBack, "Cmd+["@),
        presses(Action::BrowserForward, "Cmd+]"@),
        presses(Action::NewTab, "Cmd+T"@),
        presses(Action::CloseTab, "Cmd+W"@),
        presses(Action::ReopenTab, "Cmd+Shift+T"@),
        presses(Action::NextTab, "Ctrl+Tab"@),
        presses(Action::PrevTab, "Ctrl+Shift+Tab"@),
        presses(Action::ReloadPage, "Cmd+R"@),
        presses(Action::LockScreen, "Cmd+Ctrl+Q"@),
        presses(Action::Screenshot, "Cmd+Shift+3"@),
        presses(Action::CaptureRegion, "Cmd+Shift+Ctrl+4"@),
{
    law_control_chords();
    law_command_chords();
    assert(1u8 & 1u8 != 0 && 1u8 & 2u8 == 0 && 1u8 & 4u8 == 0 && 1u8 & 8u8 == 0 && 3u8 & 1u8 != 0
        && 3u8 & 2u8 != 0 && 3u8 & 4u8 == 0 && 3u8 & 8u8 == 0 && 4u8 & 1u8 == 0 && 4u8 & 2u8 == 0
        && 4u8 & 4u8 != 0 && 4u8 & 8u8 == 0 && 5u8 & 1u8 != 0 && 5u8 & 2u8 == 0 && 5u8 & 4u8 != 0
        && 5u8 & 8u8 == 0 && 6u8 & 1u8 == 0 && 6u8 & 2u8 != 0 && 6u8 & 4u8 != 0 && 6u8 & 8u8 == 0
        && 7u8 & 1u8 != 0 && 7u8 & 2u8 != 0 && 7u8 & 4u8 != 0 && 7u8 & 8u8 == 0) by (bit_vector);
    assert(0x10_0000u64 | 0x2_0000u64 == 0x12_0000u64 && 0x10_0000u64 | 0x4_0000u64 == 0x14_0000u64
        && 0x4_0000u64 | 0x2_0000u64 == 0x6_0000u64 && 0x10_0000u64 | 0x2_0000u64 | 0x4_0000u64
        == 0x16_0000u64) by (bit_vector);
    assert(flags_of(1) == 0x10_0000 && flags_of(3) == 0x12_0000 && flags_of(4) == 0x4_0000
        && flags_of(5) == 0x14_0000 && flags_of(6) == 0x6_0000 && flags_of(7) == 0x16_0000);
    lemma_presses(Action::Copy, "Cmd+C"@, 1, 0x08);
    lemma_presses(Action::Paste, "Cmd+V"@, 1, 0x09);
    lemma_presses(Action::Cut, "Cmd+X"@, 1, 0x07);
    lemma_presses(Action::Undo, "Cmd+Z"@, 1, 0x06);
    lemma_presses(Action::Redo, "Cmd+Shift+Z"@, 3, 0x06);
    lemma_presses(Action::SelectAll, "Cmd+A"@, 1, 0x00);
    lemma_presses(Action::Find, "Cmd+F"@, 1, 0x03);
    lemma_presses(Action::Save, "Cmd+S"@, 1, 0x01);
    lemma_presses(Action::BrowserBack, "Cmd+["@, 1, 0x21);
    lemma_presses(Action::BrowserForward, "Cmd+]"@, 1, 0x1E);
    lemma_presses(Action::NewTab, "Cmd+T"@, 1, 0x11);
    lemma_presses(Action::CloseTab, "Cmd+W"@, 1, 0x0D);
    lemma_presses(Action::ReopenTab, "Cmd+Shift+T"@, 3, 0x11);
    lemma_presses(Action::NextTab, "Ctrl+Tab"@, 4, 0x30);
    lemma_presses(Action::PrevTab, "Ctrl+Shift+Tab"@, 6, 0x30);
    lemma_presses(Action::ReloadPage, "Cmd+R"@, 1, 0x0F);
    lemma_presses(Action::LockScreen, "Cmd+Ctrl+Q"@, 5, 0x0C);
    lemma_presses(Action::Screenshot, "Cmd+Shift+3"@, 3, 0x14);
    lemma_presses(Action::CaptureRegion, "Cmd+Shift+Ctrl+4"@, 7, 0x15);
}

/// A recorded shortcut that is typed like the chord of an action does what that action does,
/// but for the one key whose code is zero.
pub proof fn law_shortcut_stands_in_for_action(action: Action, text: Seq<char>, combo: KeyCombo)
    requires
        presses(action, text),
        types(text, combo.modifiers, combo.key_code),
        combo.key_code != 0,
    ensures
        mac_step(Action::CustomShortcut(combo)) == mac_step(action),
{
    reveal(types);
    reveal(presses);
}

/// What the other actions come to: clicks of their buttons, media keys, notices to the Dock,
/// the hotkeys that switch spaces, or nothing.
pub proof fn law_other_actions(preset: u8)
    ensures
        mac_step(Action::LeftClick) == MacStepView::Mouse(click_events(MouseButton::Left)),
        mac_step(Action::RightClick) == MacStepView::Mouse(click_events(MouseButton::Right)),
        mac_step(Action::MiddleClick) == MacStepView::Mouse(click_events(MouseButton::Center)),
        mac_step(Action::MouseBack) == MacStepView::Mouse(other_button_events(3)),
        mac_step(Action::MouseForward) == MacStepView::Mouse(other_button_events(4)),
        mac_step(Action::VolumeUp) == MacStepView::Media(media_events(0)),
        mac_step(Action::VolumeDown) == MacStepView::Media(media_events(1)),
        mac_step(Action::MuteVolume) == MacStepView::Media(media_events(7)),
        mac_step(Action::PlayPause) == MacStepView::Media(media_events(16)),
        mac_step(Action::NextTrack) == MacStepView::Media(media_events(17)),
        mac_step(Action::PrevTrack) == MacStepView::Media(media_events(18)),
        mac_step(Action::MissionControl) == MacStepView::Dock(DockNotice::MissionControl),
        mac_step(Action::AppExpose) == MacStepView::Dock(DockNotice::AppExpose),
        mac_step(Action::ShowDesktop) == MacStepView::Dock(DockNotice::ShowDesktop),
        mac_step(Action::LaunchpadShow) == MacStepView::Dock(DockNotice::Launchpad),
        mac_step(Action::PreviousDesktop) == MacStepView::Hotkey(79),
        mac_step(Action::NextDesktop) == MacStepView::Hotkey(81),
        mac_step(Action::CycleDpiPresets) == MacStepView::Skip(Skipped::DeviceSide),
        mac_step(Action::SetDpiPreset(preset)) == MacStepView::Skip(Skipped::DeviceSide),
        mac_step(Action::ToggleSmartShift) == MacStepView::Skip(Skipped::DeviceSide),
        mac_step(Action::DoNothing) == MacStepView::Skip(Skipped::Suppressed),
{
}

/// A media key goes down and then up: the states are 10 and 11, below the key type.
pub proof fn law_media_key_goes_down_and_up(nx_key: i32)
    requires
        0 <= nx_key < 0x8000,
    ensures
        media_events(nx_key).len() == 2,
        media_events(nx_key)[0] == nx_key * 0x1_0000 + 0x0A00,
        media_events(nx_key)[1] == nx_key * 0x1_0000 + 0x0B00,
{
    law_media_data_layout(nx_key, NX_KEY_DOWN);
    law_media_data_layout(nx_key, NX_KEY_UP);
}

/// The names of the notices to the Dock.
pub proof fn law_dock_notices()
    ensures
        DockNotice::MissionControl.name_text() == "com.apple.expose.awake"@,
        DockNotice::AppExpose.name_text() == "com.apple.expose.front.awake"@,
        DockNotice::ShowDesktop.name_text() == "com.apple.showdesktop.awake"@,
        DockNotice::Launchpad.name_text() == "com.apple.launchpad.toggle"@,
{
}

/// A hotkey is fired by one press and no more. One that is enabled is only pressed, and one
/// without a key is left alone.
pub proof fn law_hotkey_is_pressed_once(code: u16, modifiers: u32, enabled: bool)
    ensures
        hotkey_steps(None, enabled).len() == 0,
        hotkey_steps(Some((code, modifiers)), true) == seq![HotkeyStep::Press(code, modifiers)],
        hotkey_steps(Some((code, modifiers)), false) == seq![
            HotkeyStep::SetEnabled(true),
            HotkeyStep::Press(code, modifiers),
            HotkeyStep::SetEnabled(false),
        ],
{
}

/// A step shows what it is.
pub proof fn law_steps_show_what_they_are(
    keys: Vec<KeyEvent>,
    clicks: Vec<MouseEvent>,
    scroll: ScrollEvent,
    data: Vec<i32>,
    notice: DockNotice,
    hotkey: u32,
    why: Skipped,
)
    ensures
        MacStep::Keys(keys)@ == MacStepView::Keys(keys@),
        MacStep::Mouse(clicks)@ == MacStepView::Mouse(clicks@),
        MacStep::Scroll(scroll)@ == MacStepView::Scroll(scroll),
        MacStep::Media(data)@ == MacStepView::Media(data@),
        MacStep::Dock(notice)@ == MacStepView::Dock(notice),
        MacStep::Hotkey(hotkey)@ == MacStepView::Hotkey(hotkey),
        MacStep::Skip(why)@ == MacStepView::Skip(why),
{
}

} // verus!
