//! Linux: `uinput` events and D-Bus calls.
use vstd::prelude::*;
use super::{held_where, keys, Skipped};
use crate::binding::Action;
use crate::chord::{law_control_chords, parsed, types, KeyCombo};
use crate::text::has_prefix;

verus! {

// ---------------------------------------------------------------------------
// Events and frames
// ---------------------------------------------------------------------------

/// One event for the virtual device.
#[derive(Debug, Clone, Copy, PartialEq, Eq, Structural)]
pub struct InputEvent {
    pub kind: u16,
    pub code: u16,
    pub value: i32,
}

/// The event that ends a frame.
pub open spec fn syn_event() -> InputEvent {
    InputEvent { kind: keys::EV_SYN, code: 0, value: 0 }
}

/// A key or button going down (`1`) or up (`0`).
pub open spec fn key_event(code: u16, value: i32) -> InputEvent {
    InputEvent { kind: keys::EV_KEY, code, value }
}

/// A relative axis moving by `value`.
pub open spec fn rel_event(axis: u16, value: i32) -> InputEvent {
    InputEvent { kind: keys::EV_REL, code: axis, value }
}

/// The frames of a key that is pressed and released while modifiers are held: one
/// for the way down, one for the way up, which goes backwards. Two frames give
/// press and release distinct timestamps.
pub open spec fn press_frames(mods: Seq<u16>, key: u16) -> Seq<Seq<InputEvent>> {
    seq![
        mods.map_values(|m: u16| key_event(m, 1)) + seq![key_event(key, 1), syn_event()],
        seq![key_event(key, 0)] + mods.reverse().map_values(|m: u16| key_event(m, 0)) + seq![
            syn_event(),
        ],
    ]
}

/// The frames of a button that is clicked.
pub open spec fn click_frames(button: u16) -> Seq<Seq<InputEvent>> {
    seq![
        seq![key_event(button, 1), syn_event()],
        seq![key_event(button, 0), syn_event()],
    ]
}

/// The frame of a wheel that turns.
pub open spec fn scroll_frames(axis: u16, value: i32) -> Seq<Seq<InputEvent>> {
    seq![seq![rel_event(axis, value), syn_event()]]
}

/// The events of a list of frames.
pub open spec fn frames_of(frames: Seq<Vec<InputEvent>>) -> Seq<Seq<InputEvent>> {
    frames.map_values(|f: Vec<InputEvent>| f@)
}

fn syn() -> (r: InputEvent)
    ensures
        r == syn_event(),
{
    InputEvent { kind: keys::EV_SYN, code: 0, value: 0 }
}

fn key_ev(code: u16, value: i32) -> (r: InputEvent)
    ensures
        r == key_event(code, value),
{
    InputEvent { kind: keys::EV_KEY, code, value }
}

fn rel_ev(axis: u16, value: i32) -> (r: InputEvent)
    ensures
        r == rel_event(axis, value),
{
    InputEvent { kind: keys::EV_REL, code: axis, value }
}

/// Modifier-down and key-down in one frame, then key-up and modifier-up in a
/// second frame.
pub fn press_key(mods: &[u16], key: u16) -> (r: Vec<Vec<InputEvent>>)
    ensures
        frames_of(r@) == press_frames(mods@, key),
{
    let mut down: Vec<InputEvent> = Vec::new();
    let mut i: usize = 0;
    while i < mods.len()
        invariant
            i <= mods@.len(),
            down@ == mods@.take(i as int).map_values(|m: u16| key_event(m, 1)),
        decreases mods@.len() - i,
    {
        down.push(key_ev(mods[i], 1));
        i = i + 1;
        assert(down@ =~= mods@.take(i as int).map_values(|m: u16| key_event(m, 1)));
    }
    assert(mods@.take(i as int) =~= mods@);
    down.push(key_ev(key, 1));
    down.push(syn());

    let mut up: Vec<InputEvent> = Vec::new();
    up.push(key_ev(key, 0));
    let ghost released = mods@.reverse().map_values(|m: u16| key_event(m, 0));
    while i > 0
        invariant
            i <= mods@.len(),
            released == mods@.reverse().map_values(|m: u16| key_event(m, 0)),
            up@ == seq![key_event(key, 0)] + released.take(mods@.len() - i),
        decreases i,
    {
        i = i - 1;
        up.push(key_ev(mods[i], 0));
        assert(up@ =~= seq![key_event(key, 0)] + released.take(mods@.len() - i));
    }
    assert(released.take(mods@.len() as int) =~= released);
    up.push(syn());

    let mut frames: Vec<Vec<InputEvent>> = Vec::new();
    frames.push(down);
    frames.push(up);
    proof {
        assert(frames_of(frames@)[0] =~= press_frames(mods@, key)[0]);
        assert(frames_of(frames@)[1] =~= press_frames(mods@, key)[1]);
        assert(frames_of(frames@) =~= press_frames(mods@, key));
    }
    frames
}

/// A button-down in one frame and the button-up in a second.
pub fn click(button: u16) -> (r: Vec<Vec<InputEvent>>)
    ensures
        frames_of(r@) == click_frames(button),
{
    let frames = vec![vec![key_ev(button, 1), syn()], vec![key_ev(button, 0), syn()]];
    proof {
        assert(frames_of(frames@)[0] =~= click_frames(button)[0]);
        assert(frames_of(frames@)[1] =~= click_frames(button)[1]);
        assert(frames_of(frames@) =~= click_frames(button));
    }
    frames
}

/// A single movement of a relative axis.
pub fn scroll(axis: u16, value: i32) -> (r: Vec<Vec<InputEvent>>)
    ensures
        frames_of(r@) == scroll_frames(axis, value),
{
    let frames = vec![vec![rel_ev(axis, value), syn()]];
    proof {
        assert(frames_of(frames@)[0] =~= scroll_frames(axis, value)[0]);
        assert(frames_of(frames@) =~= scroll_frames(axis, value));
    }
    frames
}

/// The frames that re-inject a turn of the thumb wheel. `delta` is in lines, one
/// per rotation increment, which is what the horizontal wheel counts in.
pub fn post_horizontal_scroll(delta: i32) -> (r: Vec<Vec<InputEvent>>)
    ensures
        frames_of(r@) == scroll_frames(keys::REL_HWHEEL, delta),
{
    scroll(keys::REL_HWHEEL, delta)
}

// ---------------------------------------------------------------------------
// Recorded key codes
// ---------------------------------------------------------------------------

/// The Linux key for a macOS `kVK_*` key code.
pub open spec fn linux_key(vk: u16) -> Option<u16> {
    match vk {
        0x00 => Some(keys::KEY_A),
        0x01 => Some(keys::KEY_S),
        0x02 => Some(keys::KEY_D),
        0x03 => Some(keys::KEY_F),
        0x04 => Some(keys::KEY_H),
        0x05 => Some(keys::KEY_G),
        0x06 => Some(keys::KEY_Z),
        0x07 => Some(keys::KEY_X),
        0x08 => Some(keys::KEY_C),
        0x09 => Some(keys::KEY_V),
        0x0B => Some(keys::KEY_B),
        0x0C => Some(keys::KEY_Q),
        0x0D => Some(keys::KEY_W),
        0x0E => Some(keys::KEY_E),
        0x0F => Some(keys::KEY_R),
        0x10 => Some(keys::KEY_Y),
        0x11 => Some(keys::KEY_T),
        0x12 => Some(keys::KEY_1),
        0x13 => Some(keys::KEY_2),
        0x14 => Some(keys::KEY_3),
        0x15 => Some(keys::KEY_4),
        0x16 => Some(keys::KEY_6),
        0x17 => Some(keys::KEY_5),
        0x18 => Some(keys::KEY_EQUAL),
        0x19 => Some(keys::KEY_9),
        0x1A => Some(keys::KEY_7),
        0x1B => Some(keys::KEY_MINUS),
        0x1C => Some(keys::KEY_8),
        0x1D => Some(keys::KEY_0),
        0x1E => Some(keys::KEY_RIGHTBRACE),
        0x1F => Some(keys::KEY_O),
        0x20 => Some(keys::KEY_U),
        0x21 => Some(keys::KEY_LEFTBRACE),
        0x22 => Some(keys::KEY_I),
        0x23 => Some(keys::KEY_P),
        0x24 => Some(keys::KEY_ENTER),
        0x25 => Some(keys::KEY_L),
        0x26 => Some(keys::KEY_J),
        0x27 => Some(keys::KEY_APOSTROPHE),
        0x28 => Some(keys::KEY_K),
        0x29 => Some(keys::KEY_SEMICOLON),
        0x2A => Some(keys::KEY_BACKSLASH),
        0x2B => Some(keys::KEY_COMMA),
        0x2C => Some(keys::KEY_SLASH),
        0x2D => Some(keys::KEY_N),
        0x2E => Some(keys::KEY_M),
        0x2F => Some(keys::KEY_DOT),
        0x30 => Some(keys::KEY_TAB),
        0x31 => Some(keys::KEY_SPACE),
        0x32 => Some(keys::KEY_GRAVE),
        0x33 => Some(keys::KEY_BACKSPACE),
        0x35 => Some(keys::KEY_ESC),
        0x60 => Some(keys::KEY_F5),
        0x61 => Some(keys::KEY_F6),
        0x62 => Some(keys::KEY_F7),
        0x63 => Some(keys::KEY_F3),
        0x64 => Some(keys::KEY_F8),
        0x65 => Some(keys::KEY_F9),
        0x67 => Some(keys::KEY_F11),
        0x6D => Some(keys::KEY_F10),
        0x6F => Some(keys::KEY_F12),
        0x76 => Some(keys::KEY_F4),
        0x78 => Some(keys::KEY_F2),
        0x7A => Some(keys::KEY_F1),
        0x73 => Some(keys::KEY_HOME),
        0x77 => Some(keys::KEY_END),
        0x74 => Some(keys::KEY_PAGEUP),
        0x79 => Some(keys::KEY_PAGEDOWN),
        0x75 => Some(keys::KEY_DELETE),
        0x7B => Some(keys::KEY_LEFT),
        0x7C => Some(keys::KEY_RIGHT),
        0x7D => Some(keys::KEY_DOWN),
        0x7E => Some(keys::KEY_UP),
        _ => None,
    }
}

/// Map a macOS `kVK_*` virtual key code to the corresponding Linux key. `None`
/// for codes that a recorded shortcut does not have.
#[must_use]
pub fn macos_vk_to_linux(vk: u16) -> (r: Option<u16>)
    ensures
        r == linux_key(vk),
{
    match vk {
        0x00 => Some(keys::KEY_A),  // kVK_ANSI_A
        0x01 => Some(keys::KEY_S),  // kVK_ANSI_S
        0x02 => Some(keys::KEY_D),  // kVK_ANSI_D
        0x03 => Some(keys::KEY_F),  // kVK_ANSI_F
        0x04 => Some(keys::KEY_H),  // kVK_ANSI_H
        0x05 => Some(keys::KEY_G),  // kVK_ANSI_G
        0x06 => Some(keys::KEY_Z),  // kVK_ANSI_Z
        0x07 => Some(keys::KEY_X),  // kVK_ANSI_X
        0x08 => Some(keys::KEY_C),  // kVK_ANSI_C
        0x09 => Some(keys::KEY_V),  // kVK_ANSI_V
        0x0B => Some(keys::KEY_B),  // kVK_ANSI_B
        0x0C => Some(keys::KEY_Q),  // kVK_ANSI_Q
        0x0D => Some(keys::KEY_W),  // kVK_ANSI_W
        0x0E => Some(keys::KEY_E),  // kVK_ANSI_E
        0x0F => Some(keys::KEY_R),  // kVK_ANSI_R
        0x10 => Some(keys::KEY_Y),  // kVK_ANSI_Y
        0x11 => Some(keys::KEY_T),  // kVK_ANSI_T
        0x12 => Some(keys::KEY_1),  // kVK_ANSI_1
        0x13 => Some(keys::KEY_2),  // kVK_ANSI_2
        0x14 => Some(keys::KEY_3),  // kVK_ANSI_3
        0x15 => Some(keys::KEY_4),  // kVK_ANSI_4
        0x16 => Some(keys::KEY_6),  // kVK_ANSI_6
        0x17 => Some(keys::KEY_5),  // kVK_ANSI_5
        0x18 => Some(keys::KEY_EQUAL),  // kVK_ANSI_Equal
        0x19 => Some(keys::KEY_9),  // kVK_ANSI_9
        0x1A => Some(keys::KEY_7),  // kVK_ANSI_7
        0x1B => Some(keys::KEY_MINUS),  // kVK_ANSI_Minus
        0x1C => Some(keys::KEY_8),  // kVK_ANSI_8
        0x1D => Some(keys::KEY_0),  // kVK_ANSI_0
        0x1E => Some(keys::KEY_RIGHTBRACE),  // kVK_ANSI_RightBracket
        0x1F => Some(keys::KEY_O),  // kVK_ANSI_O
        0x20 => Some(keys::KEY_U),  // kVK_ANSI_U
        0x21 => Some(keys::KEY_LEFTBRACE),  // kVK_ANSI_LeftBracket
        0x22 => Some(keys::KEY_I),  // kVK_ANSI_I
        0x23 => Some(keys::KEY_P),  // kVK_ANSI_P
        0x24 => Some(keys::KEY_ENTER),  // kVK_Return
        0x25 => Some(keys::KEY_L),  // kVK_ANSI_L
        0x26 => Some(keys::KEY_J),  // kVK_ANSI_J
        0x27 => Some(keys::KEY_APOSTROPHE),  // kVK_ANSI_Quote
        0x28 => Some(keys::KEY_K),  // kVK_ANSI_K
        0x29 => Some(keys::KEY_SEMICOLON),  // kVK_ANSI_Semicolon
        0x2A => Some(keys::KEY_BACKSLASH),  // kVK_ANSI_Backslash
        0x2B => Some(keys::KEY_COMMA),  // kVK_ANSI_Comma
        0x2C => Some(keys::KEY_SLASH),  // kVK_ANSI_Slash
        0x2D => Some(keys::KEY_N),  // kVK_ANSI_N
        0x2E => Some(keys::KEY_M),  // kVK_ANSI_M
        0x2F => Some(keys::KEY_DOT),  // kVK_ANSI_Period
        0x30 => Some(keys::KEY_TAB),  // kVK_Tab
        0x31 => Some(keys::KEY_SPACE),  // kVK_Space
        0x32 => Some(keys::KEY_GRAVE),  // kVK_ANSI_Grave
        0x33 => Some(keys::KEY_BACKSPACE),  // kVK_Delete (= Backspace on macOS)
        0x35 => Some(keys::KEY_ESC),  // kVK_Escape
        0x60 => Some(keys::KEY_F5),  // kVK_F5
        0x61 => Some(keys::KEY_F6),  // kVK_F6
        0x62 => Some(keys::KEY_F7),  // kVK_F7
        0x63 => Some(keys::KEY_F3),  // kVK_F3
        0x64 => Some(keys::KEY_F8),  // kVK_F8
        0x65 => Some(keys::KEY_F9),  // kVK_F9
        0x67 => Some(keys::KEY_F11),  // kVK_F11
        0x6D => Some(keys::KEY_F10),  // kVK_F10
        0x6F => Some(keys::KEY_F12),  // kVK_F12
        0x76 => Some(keys::KEY_F4),  // kVK_F4
        0x78 => Some(keys::KEY_F2),  // kVK_F2
        0x7A => Some(keys::KEY_F1),  // kVK_F1
        0x73 => Some(keys::KEY_HOME),  // kVK_Home
        0x77 => Some(keys::KEY_END),  // kVK_End
        0x74 => Some(keys::KEY_PAGEUP),  // kVK_PageUp
        0x79 => Some(keys::KEY_PAGEDOWN),  // kVK_PageDown
        0x75 => Some(keys::KEY_DELETE),  // kVK_ForwardDelete
        0x7B => Some(keys::KEY_LEFT),  // kVK_LeftArrow
        0x7C => Some(keys::KEY_RIGHT),  // kVK_RightArrow
        0x7D => Some(keys::KEY_DOWN),  // kVK_DownArrow
        0x7E => Some(keys::KEY_UP),  // kVK_UpArrow
        _ => None,
    }
}

/// The keys to hold for a modifier bitmask: Ctrl, Shift, Alt. Both Cmd and Ctrl
/// are Ctrl, which is held once.
pub open spec fn held_keys(modifiers: u8) -> Seq<u16> {
    held_where(modifiers, KeyCombo::MOD_CMD | KeyCombo::MOD_CTRL, keys::KEY_LEFTCTRL) + held_where(
        modifiers,
        KeyCombo::MOD_SHIFT,
        keys::KEY_LEFTSHIFT,
    ) + held_where(modifiers, KeyCombo::MOD_OPTION, keys::KEY_LEFTALT)
}

/// Convert a [`KeyCombo`] modifier bitmask to the keys to hold.
#[must_use]
pub fn modifiers_to_keycodes(modifiers: u8) -> (r: Vec<u16>)
    ensures
        r@ == held_keys(modifiers),
{
    let mut mods: Vec<u16> = Vec::new();
    if modifiers & (KeyCombo::MOD_CMD | KeyCombo::MOD_CTRL) != 0 {
        mods.push(keys::KEY_LEFTCTRL);
    }
    if modifiers & KeyCombo::MOD_SHIFT != 0 {
        mods.push(keys::KEY_LEFTSHIFT);
    }
    if modifiers & KeyCombo::MOD_OPTION != 0 {
        mods.push(keys::KEY_LEFTALT);
    }
    assert(mods@ =~= held_keys(modifiers));
    mods
}

// ---------------------------------------------------------------------------
// Actions
// ---------------------------------------------------------------------------

/// A command for the media player.
#[derive(Debug, Clone, Copy, PartialEq, Eq, Structural)]
pub enum MediaCommand {
    PlayPause,
    Next,
    Previous,
}

impl MediaCommand {
    /// The name of the player's method.
    pub open spec fn method_text(self) -> Seq<char> {
        match self {
            MediaCommand::PlayPause => "PlayPause"@,
            MediaCommand::Next => "Next"@,
            MediaCommand::Previous => "Previous"@,
        }
    }

    /// The key with the same meaning.
    pub open spec fn key(self) -> u16 {
        match self {
            MediaCommand::PlayPause => keys::KEY_PLAYPAUSE,
            MediaCommand::Next => keys::KEY_NEXTSONG,
            MediaCommand::Previous => keys::KEY_PREVIOUSSONG,
        }
    }

    /// The name of the method that a player is called with.
    #[must_use]
    pub fn method(self) -> (r: &'static str)
        ensures
            r@ == self.method_text(),
    {
        match self {
            MediaCommand::PlayPause => "PlayPause",
            MediaCommand::Next => "Next",
            MediaCommand::Previous => "Previous",
        }
    }
}

/// What an action comes to.
#[derive(Debug)]
pub enum LinuxStep {
    /// Emit these frames, in this order.
    Emit(Vec<Vec<InputEvent>>),
    /// Lock the screen: see [`lock_screen`].
    LockScreen,
    /// Command the media player: see [`mpris_command`].
    Media(MediaCommand),
    /// Nothing.
    Skip(Skipped),
}

/// What a [`LinuxStep`] stands for.
pub enum LinuxStepView {
    Emit(Seq<Seq<InputEvent>>),
    LockScreen,
    Media(MediaCommand),
    Skip(Skipped),
}

impl View for LinuxStep {
    type V = LinuxStepView;

    open spec fn view(&self) -> LinuxStepView {
        match self {
            LinuxStep::Emit(frames) => LinuxStepView::Emit(frames_of(frames@)),
            LinuxStep::LockScreen => LinuxStepView::LockScreen,
            LinuxStep::Media(command) => LinuxStepView::Media(*command),
            LinuxStep::Skip(why) => LinuxStepView::Skip(*why),
        }
    }
}

/// What a recorded shortcut comes to.
pub open spec fn shortcut_step(modifiers: u8, key_code: u16) -> LinuxStepView {
    if key_code == 0 {
        LinuxStepView::Skip(Skipped::NoKeyCode)
    } else {
        match linux_key(key_code) {
            Some(key) => LinuxStepView::Emit(press_frames(held_keys(modifiers), key)),
            None => LinuxStepView::Skip(Skipped::Unmapped(key_code)),
        }
    }
}

/// What each action comes to.
pub open spec fn linux_step(action: Action) -> LinuxStepView {
    let ctrl = seq![keys::KEY_LEFTCTRL];
    let alt = seq![keys::KEY_LEFTALT];
    let ctrl_shift = seq![keys::KEY_LEFTCTRL, keys::KEY_LEFTSHIFT];
    let ctrl_alt = seq![keys::KEY_LEFTCTRL, keys::KEY_LEFTALT];
    match action {
        Action::LeftClick => LinuxStepView::Emit(click_frames(keys::BTN_LEFT)),
        Action::RightClick => LinuxStepView::Emit(click_frames(keys::BTN_RIGHT)),
        Action::MiddleClick => LinuxStepView::Emit(click_frames(keys::BTN_MIDDLE)),
        Action::MouseBack => LinuxStepView::Emit(click_frames(keys::BTN_SIDE)),
        Action::MouseForward => LinuxStepView::Emit(click_frames(keys::BTN_EXTRA)),
        Action::Copy => LinuxStepView::Emit(press_frames(ctrl, keys::KEY_C)),
        Action::Paste => LinuxStepView::Emit(press_frames(ctrl, keys::KEY_V)),
        Action::Cut => LinuxStepView::Emit(press_frames(ctrl, keys::KEY_X)),
        Action::Undo => LinuxStepView::Emit(press_frames(ctrl, keys::KEY_Z)),
        Action::Redo => LinuxStepView::Emit(press_frames(ctrl_shift, keys::KEY_Z)),
        Action::SelectAll => LinuxStepView::Emit(press_frames(ctrl, keys::KEY_A)),
        Action::Find => LinuxStepView::Emit(press_frames(ctrl, keys::KEY_F)),
        Action::Save => LinuxStepView::Emit(press_frames(ctrl, keys::KEY_S)),
        Action::BrowserBack => LinuxStepView::Emit(press_frames(alt, keys::KEY_LEFT)),
        Action::BrowserForward => LinuxStepView::Emit(press_frames(alt, keys::KEY_RIGHT)),
        Action::NewTab => LinuxStepView::Emit(press_frames(ctrl, keys::KEY_T)),
        Action::CloseTab => LinuxStepView::Emit(press_frames(ctrl, keys::KEY_W)),
        Action::ReopenTab => LinuxStepView::Emit(press_frames(ctrl_shift, keys::KEY_T)),
        Action::NextTab => LinuxStepView::Emit(press_frames(ctrl, keys::KEY_TAB)),
        Action::PrevTab => LinuxStepView::Emit(press_frames(ctrl_shift, keys::KEY_TAB)),
        Action::ReloadPage => LinuxStepView::Emit(press_frames(ctrl, keys::KEY_R)),
        Action::PreviousDesktop => LinuxStepView::Emit(press_frames(ctrl_alt, keys::KEY_LEFT)),
        Action::NextDesktop => LinuxStepView::Emit(press_frames(ctrl_alt, keys::KEY_RIGHT)),
        Action::VolumeUp => LinuxStepView::Emit(press_frames(Seq::empty(), keys::KEY_VOLUMEUP)),
        Action::VolumeDown => LinuxStepView::Emit(press_frames(Seq::empty(), keys::KEY_VOLUMEDOWN)),
        Action::MuteVolume => LinuxStepView::Emit(press_frames(Seq::empty(), keys::KEY_MUTE)),
        Action::ScrollUp => LinuxStepView::Emit(scroll_frames(keys::REL_WHEEL, 3)),
        Action::ScrollDown => LinuxStepView::Emit(scroll_frames(keys::REL_WHEEL, (-3) as i32)),
        Action::HorizontalScrollLeft => LinuxStepView::Emit(
            scroll_frames(keys::REL_HWHEEL, (-3) as i32),
        ),
        Action::HorizontalScrollRight => LinuxStepView::Emit(scroll_frames(keys::REL_HWHEEL, 3)),
        Action::Screenshot => LinuxStepView::Emit(press_frames(Seq::empty(), keys::KEY_SYSRQ)),
        Action::CaptureRegion => LinuxStepView::Emit(
            press_frames(Seq::empty(), keys::KEY_SYSRQ),
        ),
        Action::LockScreen => LinuxStepView::LockScreen,
        Action::PlayPause => LinuxStepView::Media(MediaCommand::PlayPause),
        Action::NextTrack => LinuxStepView::Media(MediaCommand::Next),
        Action::PrevTrack => LinuxStepView::Media(MediaCommand::Previous),
        Action::MissionControl => LinuxStepView::Skip(Skipped::NoEquivalent),
        Action::AppExpose => LinuxStepView::Skip(Skipped::NoEquivalent),
        Action::ShowDesktop => LinuxStepView::Skip(Skipped::NoEquivalent),
        Action::LaunchpadShow => LinuxStepView::Skip(Skipped::NoEquivalent),
        Action::CycleDpiPresets => LinuxStepView::Skip(Skipped::DeviceSide),
        Action::SetDpiPreset(_) => LinuxStepView::Skip(Skipped::DeviceSide),
        Action::ToggleSmartShift => LinuxStepView::Skip(Skipped::DeviceSide),
        Action::DoNothing => LinuxStepView::Skip(Skipped::Suppressed),
        Action::CustomShortcut(combo) => shortcut_step(combo.modifiers, combo.key_code),
    }
}

/// The events of an action.
///
/// Extra mouse buttons are the side buttons that browsers handle natively. Redo
/// is Ctrl+Shift+Z. Ctrl+Alt+arrow switches desktops in GNOME and KDE. Region and
/// full-screen capture both are Print Screen, which the desktop environment's
/// screenshot handler takes. Media actions go to the running player, volume keys
/// to the mixer.
#[must_use]
pub fn execute_linux(action: &Action) -> (r: LinuxStep)
    ensures
        r@ == linux_step(*action),
{
    let none: [u16; 0] = [];
    let ctrl: [u16; 1] = [keys::KEY_LEFTCTRL];
    let alt: [u16; 1] = [keys::KEY_LEFTALT];
    let ctrl_shift: [u16; 2] = [keys::KEY_LEFTCTRL, keys::KEY_LEFTSHIFT];
    let ctrl_alt: [u16; 2] = [keys::KEY_LEFTCTRL, keys::KEY_LEFTALT];
    assert(none@ =~= Seq::empty());
    assert(ctrl@ =~= seq![keys::KEY_LEFTCTRL]);
    assert(alt@ =~= seq![keys::KEY_LEFTALT]);
    assert(ctrl_shift@ =~= seq![keys::KEY_LEFTCTRL, keys::KEY_LEFTSHIFT]);
    assert(ctrl_alt@ =~= seq![keys::KEY_LEFTCTRL, keys::KEY_LEFTALT]);
    match action {
        Action::LeftClick => LinuxStep::Emit(click(keys::BTN_LEFT)),
        Action::RightClick => LinuxStep::Emit(click(keys::BTN_RIGHT)),
        Action::MiddleClick => LinuxStep::Emit(click(keys::BTN_MIDDLE)),
        Action::MouseBack => LinuxStep::Emit(click(keys::BTN_SIDE)),
        Action::MouseForward => LinuxStep::Emit(click(keys::BTN_EXTRA)),
        Action::Copy => LinuxStep::Emit(press_key(&ctrl, keys::KEY_C)),
        Action::Paste => LinuxStep::Emit(press_key(&ctrl, keys::KEY_V)),
        Action::Cut => LinuxStep::Emit(press_key(&ctrl, keys::KEY_X)),
        Action::Undo => LinuxStep::Emit(press_key(&ctrl, keys::KEY_Z)),
        Action::Redo => LinuxStep::Emit(press_key(&ctrl_shift, keys::KEY_Z)),
        Action::SelectAll => LinuxStep::Emit(press_key(&ctrl, keys::KEY_A)),
        Action::Find => LinuxStep::Emit(press_key(&ctrl, keys::KEY_F)),
        Action::Save => LinuxStep::Emit(press_key(&ctrl, keys::KEY_S)),
        Action::BrowserBack => LinuxStep::Emit(press_key(&alt, keys::KEY_LEFT)),
        Action::BrowserForward => LinuxStep::Emit(press_key(&alt, keys::KEY_RIGHT)),
        Action::NewTab => LinuxStep::Emit(press_key(&ctrl, keys::KEY_T)),
        Action::CloseTab => LinuxStep::Emit(press_key(&ctrl, keys::KEY_W)),
        Action::ReopenTab => LinuxStep::Emit(press_key(&ctrl_shift, keys::KEY_T)),
        Action::NextTab => LinuxStep::Emit(press_key(&ctrl, keys::KEY_TAB)),
        Action::PrevTab => LinuxStep::Emit(press_key(&ctrl_shift, keys::KEY_TAB)),
        Action::ReloadPage => LinuxStep::Emit(press_key(&ctrl, keys::KEY_R)),
        Action::PreviousDesktop => LinuxStep::Emit(press_key(&ctrl_alt, keys::KEY_LEFT)),
        Action::NextDesktop => LinuxStep::Emit(press_key(&ctrl_alt, keys::KEY_RIGHT)),
        Action::VolumeUp => LinuxStep::Emit(press_key(&none, keys::KEY_VOLUMEUP)),
        Action::VolumeDown => LinuxStep::Emit(press_key(&none, keys::KEY_VOLUMEDOWN)),
        Action::MuteVolume => LinuxStep::Emit(press_key(&none, keys::KEY_MUTE)),
        Action::ScrollUp => LinuxStep::Emit(scroll(keys::REL_WHEEL, 3)),
        Action::ScrollDown => LinuxStep::Emit(scroll(keys::REL_WHEEL, -3)),
        Action::HorizontalScrollLeft => LinuxStep::Emit(scroll(keys::REL_HWHEEL, -3)),
        Action::HorizontalScrollRight => LinuxStep::Emit(scroll(keys::REL_HWHEEL, 3)),
        Action::Screenshot | Action::CaptureRegion => LinuxStep::Emit(
            press_key(&none, keys::KEY_SYSRQ),
        ),
        Action::LockScreen => LinuxStep::LockScreen,
        Action::PlayPause => LinuxStep::Media(MediaCommand::PlayPause),
        Action::NextTrack => LinuxStep::Media(MediaCommand::Next),
        Action::PrevTrack => LinuxStep::Media(MediaCommand::Previous),
        Action::MissionControl
        | Action::AppExpose
        | Action::ShowDesktop
        | Action::LaunchpadShow => LinuxStep::Skip(Skipped::NoEquivalent),
        Action::CycleDpiPresets | Action::SetDpiPreset(_) | Action::ToggleSmartShift => {
            LinuxStep::Skip(Skipped::DeviceSide)
        },
        Action::DoNothing => LinuxStep::Skip(Skipped::Suppressed),
        Action::CustomShortcut(combo) => {
            if combo.key_code == 0 {
                return LinuxStep::Skip(Skipped::NoKeyCode);
            }
            match macos_vk_to_linux(combo.key_code) {
                Some(key) => {
                    let mods = modifiers_to_keycodes(combo.modifiers);
                    LinuxStep::Emit(press_key(mods.as_slice(), key))
                },
                None => LinuxStep::Skip(Skipped::Unmapped(combo.key_code)),
            }
        },
    }
}

// ---------------------------------------------------------------------------
// D-Bus
// ---------------------------------------------------------------------------

/// A method call on a D-Bus object.
#[derive(Debug)]
pub struct BusCall {
    pub destination: String,
    pub path: String,
    pub interface: String,
    pub member: String,
    /// The only argument, where there is one.
    pub argument: Option<String>,
}

/// What a [`BusCall`] stands for.
pub struct BusCallView {
    pub destination: Seq<char>,
    pub path: Seq<char>,
    pub interface: Seq<char>,
    pub member: Seq<char>,
    pub argument: Option<Seq<char>>,
}

impl View for BusCall {
    type V = BusCallView;

    open spec fn view(&self) -> BusCallView {
        BusCallView {
            destination: self.destination@,
            path: self.path@,
            interface: self.interface@,
            member: self.member@,
            argument: match self.argument {
                Some(argument) => Some(argument@),
                None => None,
            },
        }
    }
}

/// The call that locks one session.
pub open spec fn lock_call(session: Seq<char>) -> BusCallView {
    BusCallView {
        destination: "org.freedesktop.login1"@,
        path: "/org/freedesktop/login1"@,
        interface: "org.freedesktop.login1.Manager"@,
        member: "LockSession"@,
        argument: Some(session),
    }
}

/// The frames of Super+L, the lock shortcut of GNOME and KDE.
pub open spec fn lock_frames() -> Seq<Seq<InputEvent>> {
    press_frames(seq![keys::KEY_LEFTMETA], keys::KEY_L)
}

/// How the screen is locked.
#[derive(Debug)]
pub enum LockStep {
    /// Make this call on the system bus, and hand its outcome to
    /// [`lock_screen_answered`].
    Call(BusCall),
    /// Emit these frames.
    Emit(Vec<Vec<InputEvent>>),
}

/// Lock the screen through logind where the system bus is there and the session is
/// known, else by Super+L. Without a session identifier logind is not asked at
/// all, so that no other session is locked.
#[must_use]
pub fn lock_screen(has_system_bus: bool, session_id: Option<&str>) -> (r: LockStep)
    ensures
        match session_id {
            Some(id) if has_system_bus => r matches LockStep::Call(call) && call@ == lock_call(id@),
            _ => r matches LockStep::Emit(frames) && frames_of(frames@) == lock_frames(),
        },
{
    if has_system_bus {
        if let Some(id) = session_id {
            return LockStep::Call(
                BusCall {
                    destination: "org.freedesktop.login1".to_string(),
                    path: "/org/freedesktop/login1".to_string(),
                    interface: "org.freedesktop.login1.Manager".to_string(),
                    member: "LockSession".to_string(),
                    argument: Some(id.to_string()),
                },
            );
        }
    }
    LockStep::Emit(lock_keys())
}

/// What is left to do once logind has answered: nothing where it locked the
/// session, else Super+L.
#[must_use]
pub fn lock_screen_answered(locked: bool) -> (r: Option<Vec<Vec<InputEvent>>>)
    ensures
        r is None <==> locked,
        r matches Some(frames) ==> frames_of(frames@) == lock_frames(),
{
    if locked {
        None
    } else {
        Some(lock_keys())
    }
}

fn lock_keys() -> (r: Vec<Vec<InputEvent>>)
    ensures
        frames_of(r@) == lock_frames(),
{
    let meta: [u16; 1] = [keys::KEY_LEFTMETA];
    assert(meta@ =~= seq![keys::KEY_LEFTMETA]);
    press_key(&meta, keys::KEY_L)
}

/// Whether a bus name is that of a media player.
pub open spec fn is_player(name: Seq<char>) -> bool {
    "org.mpris.MediaPlayer2."@.is_prefix_of(name)
}

/// The call that lists the names on a bus.
pub open spec fn list_call() -> BusCallView {
    BusCallView {
        destination: "org.freedesktop.DBus"@,
        path: "/org/freedesktop/DBus"@,
        interface: "org.freedesktop.DBus"@,
        member: "ListNames"@,
        argument: None,
    }
}

/// The call that commands a player.
pub open spec fn player_call(player: Seq<char>, command: MediaCommand) -> BusCallView {
    BusCallView {
        destination: player,
        path: "/org/mpris/MediaPlayer2"@,
        interface: "org.mpris.MediaPlayer2.Player"@,
        member: command.method_text(),
        argument: None,
    }
}

/// The first media player among `names`, from `from` on.
pub open spec fn first_player(names: Seq<Seq<char>>, from: int) -> Option<Seq<char>>
    decreases names.len() - from,
{
    if from < 0 || from >= names.len() {
        None
    } else if is_player(names[from]) {
        Some(names[from])
    } else {
        first_player(names, from + 1)
    }
}

/// The texts of a list of strings.
pub open spec fn texts_of(names: Seq<String>) -> Seq<Seq<char>> {
    names.map_values(|name: String| name@)
}

/// How a media command is carried out.
#[derive(Debug)]
pub enum MprisStep {
    /// Make this call on the session bus. Whatever comes of it, nothing follows.
    Call(BusCall),
    /// Emit these frames.
    Emit(Vec<Vec<InputEvent>>),
}

/// The call whose answer [`mpris_command`] takes.
#[must_use]
pub fn list_names() -> (r: BusCall)
    ensures
        r@ == list_call(),
{
    BusCall {
        destination: "org.freedesktop.DBus".to_string(),
        path: "/org/freedesktop/DBus".to_string(),
        interface: "org.freedesktop.DBus".to_string(),
        member: "ListNames".to_string(),
        argument: None,
    }
}

/// Send `command` to the first media player among the `names` on the session bus,
/// or press the corresponding multimedia key where there is none. `names` is
/// `None` where the bus could not be asked.
///
/// A player that is found is called, and no key is pressed even if the call fails:
/// the player likely handles the key too, and would toggle twice.
#[must_use]
pub fn mpris_command(command: MediaCommand, names: Option<&Vec<String>>) -> (r: MprisStep)
    ensures
        match (match names {
            Some(names) => first_player(texts_of(names@), 0),
            None => None,
        }) {
            Some(player) => r matches MprisStep::Call(call) && call@ == player_call(
                player,
                command,
            ),
            None => r matches MprisStep::Emit(frames) && frames_of(frames@) == press_frames(
                Seq::empty(),
                command.key(),
            ),
        },
{
    if let Some(list) = names {
        let mut i: usize = 0;
        while i < list.len()
            invariant
                i <= list@.len(),
                names == Some(list),
                first_player(texts_of(list@), 0) == first_player(texts_of(list@), i as int),
            decreases list@.len() - i,
        {
            if has_prefix(list[i].as_str(), "org.mpris.MediaPlayer2.") {
                return MprisStep::Call(
                    BusCall {
                        destination: list[i].clone(),
                        path: "/org/mpris/MediaPlayer2".to_string(),
                        interface: "org.mpris.MediaPlayer2.Player".to_string(),
                        member: command.method().to_string(),
                        argument: None,
                    },
                );
            }
            i = i + 1;
        }
    }
    let none: [u16; 0] = [];
    assert(none@ =~= Seq::empty());
    let key: u16 = match command {
        MediaCommand::PlayPause => keys::KEY_PLAYPAUSE,
        MediaCommand::Next => keys::KEY_NEXTSONG,
        MediaCommand::Previous => keys::KEY_PREVIOUSSONG,
    };
    MprisStep::Emit(press_key(&none, key))
}

// ---------------------------------------------------------------------------
// Laws
// ---------------------------------------------------------------------------

/// Every key that a press takes down it also releases, in the opposite order, and
/// each of its two frames is closed.
pub proof fn law_press_is_balanced(mods: Seq<u16>, key: u16, i: int)
    requires
        0 <= i <= mods.len(),
    ensures
        ({
            let down = press_frames(mods, key)[0];
            let up = press_frames(mods, key)[1];
            &&& press_frames(mods, key).len() == 2
            &&& down.len() == mods.len() + 2
            &&& up.len() == mods.len() + 2
            &&& down[i] == key_event(
                if i < mods.len() {
                    mods[i]
                } else {
                    key
                },
                1,
            )
            &&& up[mods.len() - i] == (InputEvent { value: 0, ..down[i] })
            &&& down.last() == syn_event()
            &&& up.last() == syn_event()
        }),
{
}

/// Whether every event of the frames is one that the virtual device registers.
pub open spec fn deliverable(frames: Seq<Seq<InputEvent>>) -> bool {
    forall|i: int, j: int|
        0 <= i < frames.len() && 0 <= j < frames[i].len() ==> {
            let event = #[trigger] frames[i][j];
            ||| event == syn_event()
            ||| event.kind == keys::EV_KEY && keys::registered(event.code)
            ||| event.kind == keys::EV_REL && (event.code == keys::REL_WHEEL || event.code
                == keys::REL_HWHEEL)
        }
}

proof fn lemma_press_deliverable(mods: Seq<u16>, key: u16)
    requires
        keys::registered(key),
        forall|i: int| 0 <= i < mods.len() ==> keys::registered(#[trigger] mods[i]),
    ensures
        deliverable(press_frames(mods, key)),
{
    let frames = press_frames(mods, key);
    assert forall|i: int, j: int| 0 <= i < frames.len() && 0 <= j < frames[i].len() implies ({
        let event = #[trigger] frames[i][j];
        ||| event == syn_event()
        ||| event.kind == keys::EV_KEY && keys::registered(event.code)
    }) by {
        if i == 0 && j < mods.len() {
            assert(frames[i][j] == key_event(mods[j], 1));
        } else if i == 1 && 0 < j <= mods.len() {
            assert(frames[i][j] == key_event(mods[mods.len() - j], 0));
        }
    }
}

proof fn lemma_linux_key_registered(vk: u16)
    ensures
        linux_key(vk) matches Some(key) ==> keys::registered(key),
{
    keys::lemma_registered();
}

/// The virtual device delivers every event of every action: none is dropped for
/// want of registration. The same holds of the keys that stand in for D-Bus calls,
/// and of the thumb wheel.
#[verifier::rlimit(40)]
pub proof fn law_every_event_is_deliverable(action: Action, command: MediaCommand, delta: i32)
    ensures
        linux_step(action) matches LinuxStepView::Emit(frames) ==> deliverable(frames),
        deliverable(lock_frames()),
        deliverable(press_frames(Seq::empty(), command.key())),
        deliverable(scroll_frames(keys::REL_HWHEEL, delta)),
{
    keys::lemma_registered();
    assert forall|mods: Seq<u16>, key: u16|
        keys::registered(key) && (forall|i: int|
            0 <= i < mods.len() ==> keys::registered(#[trigger] mods[i])) implies deliverable(
        #[trigger] press_frames(mods, key),
    ) by {
        lemma_press_deliverable(mods, key);
    }
    if let Action::CustomShortcut(combo) = action {
        lemma_linux_key_registered(combo.key_code);
    }
}

/// No two recorded keys become the same Linux key.
pub proof fn law_linux_keys_are_distinct(a: u16, b: u16)
    requires
        linux_key(a) is Some,
        linux_key(a) == linux_key(b),
    ensures
        a == b,
{
}

/// Cmd and Ctrl hold the same key, alone or together, and no modifier holds none.
/// A key is held for each modifier that is set, and none is held twice.
pub proof fn law_held_keys(modifiers: u8)
    ensures
        held_keys(KeyCombo::MOD_CMD) == seq![keys::KEY_LEFTCTRL],
        held_keys(KeyCombo::MOD_CTRL) == seq![keys::KEY_LEFTCTRL],
        held_keys(KeyCombo::MOD_CMD | KeyCombo::MOD_CTRL) == seq![keys::KEY_LEFTCTRL],
        held_keys(0) == Seq::<u16>::empty(),
        held_keys(modifiers).contains(keys::KEY_LEFTCTRL) <==> modifiers & KeyCombo::MOD_CMD != 0
            || modifiers & KeyCombo::MOD_CTRL != 0,
        held_keys(modifiers).contains(keys::KEY_LEFTSHIFT) <==> modifiers & KeyCombo::MOD_SHIFT
            != 0,
        held_keys(modifiers).contains(keys::KEY_LEFTALT) <==> modifiers & KeyCombo::MOD_OPTION != 0,
        held_keys(modifiers).no_duplicates(),
{
    assert(1u8 & (1u8 | 4u8) != 0 && 4u8 & (1u8 | 4u8) != 0 && (1u8 | 4u8) & (1u8 | 4u8) != 0
        && 1u8 & 2u8 == 0 && 4u8 & 2u8 == 0 && (1u8 | 4u8) & 2u8 == 0 && 1u8 & 8u8 == 0 && 4u8
        & 8u8 == 0 && (1u8 | 4u8) & 8u8 == 0 && 0u8 & (1u8 | 4u8) == 0 && 0u8 & 2u8 == 0 && 0u8
        & 8u8 == 0) by (bit_vector);
    assert(modifiers & (1u8 | 4u8) != 0 <==> modifiers & 1u8 != 0 || modifiers & 4u8 != 0)
        by (bit_vector);
    let ctrl = held_where(modifiers, KeyCombo::MOD_CMD | KeyCombo::MOD_CTRL, keys::KEY_LEFTCTRL);
    let shift = held_where(modifiers, KeyCombo::MOD_SHIFT, keys::KEY_LEFTSHIFT);
    let alt = held_where(modifiers, KeyCombo::MOD_OPTION, keys::KEY_LEFTALT);
    let held = held_keys(modifiers);
    if ctrl.len() > 0 {
        assert(held[0] == keys::KEY_LEFTCTRL);
    }
    if shift.len() > 0 {
        assert(held[ctrl.len() as int] == keys::KEY_LEFTSHIFT);
    }
    if alt.len() > 0 {
        assert(held[(ctrl.len() + shift.len()) as int] == keys::KEY_LEFTALT);
    }
}

/// The player that is commanded is the first on the bus. Where none is commanded,
/// there is none.
pub proof fn law_first_player(names: Seq<Seq<char>>, from: int)
    requires
        0 <= from <= names.len(),
    ensures
        match first_player(names, from) {
            Some(player) => exists|i: int|
                from <= i < names.len() && #[trigger] names[i] == player && is_player(player) && (
                forall|j: int| from <= j < i ==> !is_player(#[trigger] names[j])),
            None => forall|j: int| from <= j < names.len() ==> !is_player(#[trigger] names[j]),
        },
    decreases names.len() - from,
{
    if from < names.len() {
        if is_player(names[from]) {
            assert(names[from] == first_player(names, from)->Some_0);
        } else {
            law_first_player(names, from + 1);
        }
    }
}

/// Every chord that can be typed is injected, but for the one key whose code is
/// zero.
pub proof fn law_typed_chord_is_injected(input: Seq<char>)
    ensures
        parsed(input) matches Ok(chord) ==> if chord.key_code == 0 {
            shortcut_step(chord.modifiers, chord.key_code) == LinuxStepView::Skip(
                Skipped::NoKeyCode,
            )
        } else {
            shortcut_step(chord.modifiers, chord.key_code) is Emit
        },
{
}

/// What the events of the virtual device are made of.
pub proof fn law_event_records(code: u16, value: i32)
    ensures
        syn_event() == (InputEvent { kind: 0, code: 0, value: 0 }),
        key_event(code, value) == (InputEvent { kind: 1, code, value }),
        rel_event(code, value) == (InputEvent { kind: 2, code, value }),
{
}

/// A click takes the button down in one closed frame and up in the next. A turn of a wheel
/// is one closed frame.
pub proof fn law_clicks_and_scrolls(button: u16, axis: u16, value: i32)
    ensures
        ({
            let frames = click_frames(button);
            &&& frames.len() == 2
            &&& frames[0].len() == 2 && frames[1].len() == 2
            &&& frames[0][0] == (InputEvent { kind: 1, code: button, value: 1 })
            &&& frames[1][0] == (InputEvent { kind: 1, code: button, value: 0 })
            &&& frames[0][1] == (InputEvent { kind: 0, code: 0, value: 0 })
            &&& frames[1][1] == (InputEvent { kind: 0, code: 0, value: 0 })
        }),
        ({
            let frames = scroll_frames(axis, value);
            &&& frames.len() == 1
            &&& frames[0].len() == 2
            &&& frames[0][0] == (InputEvent { kind: 2, code: axis, value })
            &&& frames[0][1] == (InputEvent { kind: 0, code: 0, value: 0 })
        }),
{
}

/// Lists of frames and of names show each of their items.
pub proof fn law_lists_show_their_items(
    frames: Seq<Vec<InputEvent>>,
    names: Seq<String>,
    i: int,
)
    ensures
        frames_of(frames).len() == frames.len(),
        0 <= i < frames.len() ==> frames_of(frames)[i] == frames[i]@,
        texts_of(names).len() == names.len(),
        0 <= i < names.len() ==> texts_of(names)[i] == names[i]@,
{
}

/// A step shows what it is.
pub proof fn law_steps_show_what_they_are(
    frames: Vec<Vec<InputEvent>>,
    command: MediaCommand,
    why: Skipped,
    call: BusCall,
)
    ensures
        LinuxStep::Emit(frames)@ == LinuxStepView::Emit(frames_of(frames@)),
        LinuxStep::LockScreen@ == LinuxStepView::LockScreen,
        LinuxStep::Media(command)@ == LinuxStepView::Media(command),
        LinuxStep::Skip(why)@ == LinuxStepView::Skip(why),
        call@.destination == call.destination@,
        call@.path == call.path@,
        call@.interface == call.interface@,
        call@.member == call.member@,
        call@.argument == match call.argument {
            Some(argument) => Some(argument@),
            None => None,
        },
{
}

/// The kernel's key for each recorded key. No other code has one.
pub proof fn law_linux_keys(vk: u16)
    ensures
        linux_key(0x00) == Some(30u16),
        linux_key(0x01) == Some(31u16),
        linux_key(0x02) == Some(32u16),
        linux_key(0x03) == Some(33u16),
        linux_key(0x04) == Some(35u16),
        linux_key(0x05) == Some(34u16),
        linux_key(0x06) == Some(44u16),
        linux_key(0x07) == Some(45u16),
        linux_key(0x08) == Some(46u16),
        linux_key(0x09) == Some(47u16),
        linux_key(0x0B) == Some(48u16),
        linux_key(0x0C) == Some(16u16),
        linux_key(0x0D) == Some(17u16),
        linux_key(0x0E) == Some(18u16),
        linux_key(0x0F) == Some(19u16),
        linux_key(0x10) == Some(21u16),
        linux_key(0x11) == Some(20u16),
        linux_key(0x12) == Some(2u16),
        linux_key(0x13) == Some(3u16),
        linux_key(0x14) == Some(4u16),
        linux_key(0x15) == Some(5u16),
        linux_key(0x16) == Some(7u16),
        linux_key(0x17) == Some(6u16),
        linux_key(0x18) == Some(13u16),
        linux_key(0x19) == Some(10u16),
        linux_key(0x1A) == Some(8u16),
        linux_key(0x1B) == Some(12u16),
        linux_key(0x1C) == Some(9u16),
        linux_key(0x1D) == Some(11u16),
        linux_key(0x1E) == Some(27u16),
        linux_key(0x1F) == Some(24u16),
        linux_key(0x20) == Some(22u16),
        linux_key(0x21) == Some(26u16),
        linux_key(0x22) == Some(23u16),
        linux_key(0x23) == Some(25u16),
        linux_key(0x24) == Some(28u16),
        linux_key(0x25) == Some(38u16),
        linux_key(0x26) == Some(36u16),
        linux_key(0x27) == Some(40u16),
        linux_key(0x28) == Some(37u16),
        linux_key(0x29) == Some(39u16),
        linux_key(0x2A) == Some(43u16),
        linux_key(0x2B) == Some(51u16),
        linux_key(0x2C) == Some(53u16),
        linux_key(0x2D) == Some(49u16),
        linux_key(0x2E) == Some(50u16),
        linux_key(0x2F) == Some(52u16),
        linux_key(0x30) == Some(15u16),
        linux_key(0x31) == Some(57u16),
        linux_key(0x32) == Some(41u16),
        linux_key(0x33) == Some(14u16),
        linux_key(0x35) == Some(1u16),
        linux_key(0x60) == Some(63u16),
        linux_key(0x61) == Some(64u16),
        linux_key(0x62) == Some(65u16),
        linux_key(0x63) == Some(61u16),
        linux_key(0x64) == Some(66u16),
        linux_key(0x65) == Some(67u16),
        linux_key(0x67) == Some(87u16),
        linux_key(0x6D) == Some(68u16),
        linux_key(0x6F) == Some(88u16),
        linux_key(0x76) == Some(62u16),
        linux_key(0x78) == Some(60u16),
        linux_key(0x7A) == Some(59u16),
        linux_key(0x73) == Some(102u16),
        linux_key(0x77) == Some(107u16),
        linux_key(0x74) == Some(104u16),
        linux_key(0x79) == Some(109u16),
        linux_key(0x75) == Some(111u16),
        linux_key(0x7B) == Some(105u16),
        linux_key(0x7C) == Some(106u16),
        linux_key(0x7D) == Some(108u16),
        linux_key(0x7E) == Some(103u16),
        linux_key(vk) is Some ==> (vk == 0x00 || vk == 0x01 || vk == 0x02 || vk == 0x03
            || vk == 0x04 || vk == 0x05 || vk == 0x06 || vk == 0x07 || vk == 0x08 || vk == 0x09
            || vk == 0x0B || vk == 0x0C || vk == 0x0D || vk == 0x0E || vk == 0x0F || vk == 0x10
            || vk == 0x11 || vk == 0x12 || vk == 0x13 || vk == 0x14 || vk == 0x15 || vk == 0x16
            || vk == 0x17 || vk == 0x18 || vk == 0x19 || vk == 0x1A || vk == 0x1B || vk == 0x1C
            || vk == 0x1D || vk == 0x1E || vk == 0x1F || vk == 0x20 || vk == 0x21 || vk == 0x22
            || vk == 0x23 || vk == 0x24 || vk == 0x25 || vk == 0x26 || vk == 0x27 || vk == 0x28
            || vk == 0x29 || vk == 0x2A || vk == 0x2B || vk == 0x2C || vk == 0x2D || vk == 0x2E
            || vk == 0x2F || vk == 0x30 || vk == 0x31 || vk == 0x32 || vk == 0x33 || vk == 0x35
            || vk == 0x60 || vk == 0x61 || vk == 0x62 || vk == 0x63 || vk == 0x64 || vk == 0x65
            || vk == 0x67 || vk == 0x6D || vk == 0x6F || vk == 0x76 || vk == 0x78 || vk == 0x7A
            || vk == 0x73 || vk == 0x77 || vk == 0x74 || vk == 0x79 || vk == 0x75 || vk == 0x7B
            || vk == 0x7C || vk == 0x7D || vk == 0x7E),
{
}

/// The keys that are held for a chord, in order: Ctrl for Cmd or Ctrl, then Shift, then Alt.
pub proof fn law_held_order(modifiers: u8)
    ensures
        held_keys(modifiers) == if modifiers & 1 != 0 || modifiers & 4 != 0 {
            seq![29u16]
        } else {
            Seq::empty()
        } + if modifiers & 2 != 0 {
            seq![42u16]
        } else {
            Seq::empty()
        } + if modifiers & 8 != 0 {
            seq![56u16]
        } else {
            Seq::empty()
        },
{
    assert(modifiers & (1u8 | 4u8) != 0 <==> modifiers & 1u8 != 0 || modifiers & 4u8 != 0)
        by (bit_vector);
}

/// A recorded shortcut presses its key with its modifiers held. Without a key, or with one
/// that Linux has no key for, it presses nothing and says why.
pub proof fn law_recorded_shortcut(combo: KeyCombo)
    ensures
        combo.key_code == 0 ==> linux_step(Action::CustomShortcut(combo)) == LinuxStepView::Skip(
            Skipped::NoKeyCode,
        ),
        combo.key_code != 0 && linux_key(combo.key_code) is Some ==> linux_step(
            Action::CustomShortcut(combo),
        ) == LinuxStepView::Emit(
            press_frames(held_keys(combo.modifiers), linux_key(combo.key_code)->Some_0),
        ),
        combo.key_code != 0 && linux_key(combo.key_code) is None ==> linux_step(
            Action::CustomShortcut(combo),
        ) == LinuxStepView::Skip(Skipped::Unmapped(combo.key_code)),
        shortcut_step(combo.modifiers, combo.key_code) == linux_step(
            Action::CustomShortcut(combo),
        ),
{
}

/// Whether an action presses the keys of the chord that `text` writes.
#[verifier::opaque]
pub open spec fn presses(action: Action, text: Seq<char>) -> bool {
    parsed(text) matches Ok(chord) && linux_step(action) == LinuxStepView::Emit(
        press_frames(held_keys(chord.modifiers), linux_key(chord.key_code)->Some_0),
    ) && linux_key(chord.key_code) is Some
}

proof fn lemma_presses(action: Action, text: Seq<char>, modifiers: u8, key_code: u16)
    requires
        types(text, modifiers, key_code),
        linux_key(key_code) is Some,
        linux_step(action) == LinuxStepView::Emit(
            press_frames(held_keys(modifiers), linux_key(key_code)->Some_0),
        ),
    ensures
        presses(action, text),
{
    reveal(types);
    reveal(presses);
}

/// Each editing and browser action presses the chord that it is known by, and the desktop
/// is switched with Ctrl+Alt and an arrow.
pub proof fn law_actions_press_their_chords()
    ensures
        presses(Action::Copy, "Ctrl+C"@),
        presses(Action::Paste, "Ctrl+V"@),
        presses(Action::Cut, "Ctrl+X"@),
        presses(Action::Undo, "Ctrl+Z"@),
        presses(Action::Redo, "Ctrl+Shift+Z"@),
        presses(Action::SelectAll, "Ctrl+A"@),
        presses(Action::Find, "Ctrl+F"@),
        presses(Action::Save, "Ctrl+S"@),
        presses(Action::BrowserBack, "Alt+Left"@),
        presses(Action::BrowserForward, "Alt+Right"@),
        presses(Action::NewTab, "Ctrl+T"@),
        presses(Action::CloseTab, "Ctrl+W"@),
        presses(Action::ReopenTab, "Ctrl+Shift+T"@),
        presses(Action::NextTab, "Ctrl+Tab"@),
        presses(Action::PrevTab, "Ctrl+Shift+Tab"@),
        presses(Action::ReloadPage, "Ctrl+R"@),
        presses(Action::PreviousDesktop, "Ctrl+Alt+Left"@),
        presses(Action::NextDesktop, "Ctrl+Alt+Right"@),
{
    law_control_chords();
    assert(4u8 & 1u8 == 0 && 4u8 & 4u8 != 0 && 4u8 & 2u8 == 0 && 4u8 & 8u8 == 0 && 6u8 & 1u8 == 0
        && 6u8 & 4u8 != 0 && 6u8 & 2u8 != 0 && 6u8 & 8u8 == 0 && 8u8 & 1u8 == 0 && 8u8 & 4u8 == 0
        && 8u8 & 2u8 == 0 && 8u8 & 8u8 != 0 && 12u8 & 1u8 == 0 && 12u8 & 4u8 != 0 && 12u8 & 2u8
        == 0 && 12u8 & 8u8 != 0) by (bit_vector);
    law_held_order(4);
    law_held_order(6);
    law_held_order(8);
    law_held_order(12);
    assert(held_keys(4) =~= seq![29u16]);
    assert(held_keys(6) =~= seq![29u16, 42u16]);
    assert(held_keys(8) =~= seq![56u16]);
    assert(held_keys(12) =~= seq![29u16, 56u16]);
    lemma_presses(Action::Copy, "Ctrl+C"@, 4, 0x08);
    lemma_presses(Action::Paste, "Ctrl+V"@, 4, 0x09);
    lemma_presses(Action::Cut, "Ctrl+X"@, 4, 0x07);
    lemma_presses(Action::Undo, "Ctrl+Z"@, 4, 0x06);
    lemma_presses(Action::Redo, "Ctrl+Shift+Z"@, 6, 0x06);
    lemma_presses(Action::SelectAll, "Ctrl+A"@, 4, 0x00);
    lemma_presses(Action::Find, "Ctrl+F"@, 4, 0x03);
    lemma_presses(Action::Save, "Ctrl+S"@, 4, 0x01);
    lemma_presses(Action::BrowserBack, "Alt+Left"@, 8, 0x7B);
    lemma_presses(Action::BrowserForward, "Alt+Right"@, 8, 0x7C);
    lemma_presses(Action::NewTab, "Ctrl+T"@, 4, 0x11);
    lemma_presses(Action::CloseTab, "Ctrl+W"@, 4, 0x0D);
    lemma_presses(Action::ReopenTab, "Ctrl+Shift+T"@, 6, 0x11);
    lemma_presses(Action::NextTab, "Ctrl+Tab"@, 4, 0x30);
    lemma_presses(Action::PrevTab, "Ctrl+Shift+Tab"@, 6, 0x30);
    lemma_presses(Action::ReloadPage, "Ctrl+R"@, 4, 0x0F);
    lemma_presses(Action::PreviousDesktop, "Ctrl+Alt+Left"@, 12, 0x7B);
    lemma_presses(Action::NextDesktop, "Ctrl+Alt+Right"@, 12, 0x7C);
}

/// A recorded shortcut that is typed like the chord of an action does what that action does,
/// but for the one key whose code is zero.
pub proof fn law_shortcut_stands_in_for_action(action: Action, text: Seq<char>, combo: KeyCombo)
    requires
        presses(action, text),
        types(text, combo.modifiers, combo.key_code),
        combo.key_code != 0,
    ensures
        linux_step(Action::CustomShortcut(combo)) == linux_step(action),
{
    reveal(types);
    reveal(presses);
}

/// What the other actions come to: clicks of their buttons, the volume and print-screen
/// keys, the wheels by three lines, a command for the player, the lock, or nothing.
pub proof fn law_other_actions(preset: u8)
    ensures
        linux_step(Action::LeftClick) == LinuxStepView::Emit(click_frames(0x110)),
        linux_step(Action::RightClick) == LinuxStepView::Emit(click_frames(0x111)),
        linux_step(Action::MiddleClick) == LinuxStepView::Emit(click_frames(0x112)),
        linux_step(Action::MouseBack) == LinuxStepView::Emit(click_frames(0x113)),
        linux_step(Action::MouseForward) == LinuxStepView::Emit(click_frames(0x114)),
        linux_step(Action::MuteVolume) == LinuxStepView::Emit(press_frames(Seq::empty(), 113)),
        linux_step(Action::VolumeDown) == LinuxStepView::Emit(press_frames(Seq::empty(), 114)),
        linux_step(Action::VolumeUp) == LinuxStepView::Emit(press_frames(Seq::empty(), 115)),
        linux_step(Action::Screenshot) == LinuxStepView::Emit(press_frames(Seq::empty(), 99)),
        linux_step(Action::CaptureRegion) == LinuxStepView::Emit(press_frames(Seq::empty(), 99)),
        linux_step(Action::ScrollUp) == LinuxStepView::Emit(scroll_frames(8, 3)),
        linux_step(Action::ScrollDown) == LinuxStepView::Emit(scroll_frames(8, (-3) as i32)),
        linux_step(Action::HorizontalScrollRight) == LinuxStepView::Emit(scroll_frames(6, 3)),
        linux_step(Action::HorizontalScrollLeft) == LinuxStepView::Emit(
            scroll_frames(6, (-3) as i32),
        ),
        linux_step(Action::PlayPause) == LinuxStepView::Media(MediaCommand::PlayPause),
        linux_step(Action::NextTrack) == LinuxStepView::Media(MediaCommand::Next),
        linux_step(Action::PrevTrack) == LinuxStepView::Media(MediaCommand::Previous),
        linux_step(Action::LockScreen) == LinuxStepView::LockScreen,
        linux_step(Action::MissionControl) == LinuxStepView::Skip(Skipped::NoEquivalent),
        linux_step(Action::AppExpose) == LinuxStepView::Skip(Skipped::NoEquivalent),
        linux_step(Action::ShowDesktop) == LinuxStepView::Skip(Skipped::NoEquivalent),
        linux_step(Action::LaunchpadShow) == LinuxStepView::Skip(Skipped::NoEquivalent),
        linux_step(Action::CycleDpiPresets) == LinuxStepView::Skip(Skipped::DeviceSide),
        linux_step(Action::SetDpiPreset(preset)) == LinuxStepView::Skip(Skipped::DeviceSide),
        linux_step(Action::ToggleSmartShift) == LinuxStepView::Skip(Skipped::DeviceSide),
        linux_step(Action::DoNothing) == LinuxStepView::Skip(Skipped::Suppressed),
        keys::REL_HWHEEL == 6,
{
}

/// What a player is asked for, and the key that stands in for it.
pub proof fn law_media_commands(player: Seq<char>, command: MediaCommand)
    ensures
        MediaCommand::PlayPause.method_text() == "PlayPause"@,
        MediaCommand::Next.method_text() == "Next"@,
        MediaCommand::Previous.method_text() == "Previous"@,
        MediaCommand::PlayPause.key() == 164,
        MediaCommand::Next.key() == 163,
        MediaCommand::Previous.key() == 165,
        player_call(player, command).destination == player,
        player_call(player, command).path == "/org/mpris/MediaPlayer2"@,
        player_call(player, command).interface == "org.mpris.MediaPlayer2.Player"@,
        player_call(player, command).member == command.method_text(),
        player_call(player, command).argument is None,
{
}

/// The names on the bus that are players' names: those that go on from the common
/// beginning, and no others.
pub proof fn law_player_names(name: Seq<char>, rest: Seq<char>)
    ensures
        is_player("org.mpris.MediaPlayer2."@ + rest),
        is_player(name) ==> exists|tail: Seq<char>|
            name == #[trigger] ("org.mpris.MediaPlayer2."@ + tail),
{
    let prefix = "org.mpris.MediaPlayer2."@;
    assert((prefix + rest).subrange(0, prefix.len() as int) =~= prefix);
    if is_player(name) {
        assert(name =~= prefix + name.skip(prefix.len() as int));
    }
}

/// The calls for the bus: locking one session, which is named, and listing the names. Where
/// the session cannot be locked by a call, Super+L is pressed.
pub proof fn law_bus_calls(session: Seq<char>)
    ensures
        lock_call(session).destination == "org.freedesktop.login1"@,
        lock_call(session).path == "/org/freedesktop/login1"@,
        lock_call(session).interface == "org.freedesktop.login1.Manager"@,
        lock_call(session).member == "LockSession"@,
        lock_call(session).argument == Some(session),
        list_call().destination == "org.freedesktop.DBus"@,
        list_call().path == "/org/freedesktop/DBus"@,
        list_call().interface == "org.freedesktop.DBus"@,
        list_call().member == "ListNames"@,
        list_call().argument is None,
        lock_frames() == press_frames(seq![125u16], 38),
{
}

} // verus!
