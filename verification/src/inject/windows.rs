//! Windows: `SendInput` records.
use vstd::prelude::*;
use super::{held_where, Skipped};
use crate::binding::Action;
use crate::chord::{
    char_key, law_control_chords, law_windows_chords, parsed, types, KeyCombo,
};
use crate::inject::linux::linux_key;
use crate::swipe::{saturate, saturated};

verus! {

// ---------------------------------------------------------------------------
// Codes and flags
// ---------------------------------------------------------------------------

pub const VK_TAB: u16 = 0x09;

pub const VK_SHIFT: u16 = 0x10;

pub const VK_CONTROL: u16 = 0x11;

pub const VK_LEFT: u16 = 0x25;

pub const VK_RIGHT: u16 = 0x27;

pub const VK_A: u16 = 0x41;

pub const VK_C: u16 = 0x43;

pub const VK_D: u16 = 0x44;

pub const VK_F: u16 = 0x46;

pub const VK_L: u16 = 0x4C;

pub const VK_R: u16 = 0x52;

pub const VK_S: u16 = 0x53;

pub const VK_T: u16 = 0x54;

pub const VK_V: u16 = 0x56;

pub const VK_W: u16 = 0x57;

pub const VK_X: u16 = 0x58;

pub const VK_Y: u16 = 0x59;

pub const VK_Z: u16 = 0x5A;

pub const VK_LWIN: u16 = 0x5B;

/// The left-side variants are what a recorded chord holds: global hotkey engines
/// then see the scan codes of a physical left Shift, Ctrl or Alt.
pub const VK_LSHIFT: u16 = 0xA0;

pub const VK_LCONTROL: u16 = 0xA2;

pub const VK_LMENU: u16 = 0xA4;

pub const VK_BROWSER_BACK: u16 = 0xA6;

pub const VK_BROWSER_FORWARD: u16 = 0xA7;

pub const VK_VOLUME_MUTE: u16 = 0xAD;

pub const VK_VOLUME_DOWN: u16 = 0xAE;

pub const VK_VOLUME_UP: u16 = 0xAF;

pub const VK_MEDIA_NEXT_TRACK: u16 = 0xB0;

pub const VK_MEDIA_PREV_TRACK: u16 = 0xB1;

pub const VK_MEDIA_PLAY_PAUSE: u16 = 0xB3;

pub const KEYEVENTF_EXTENDEDKEY: u32 = 1;

pub const KEYEVENTF_KEYUP: u32 = 2;

pub const KEYEVENTF_SCANCODE: u32 = 8;

pub const MOUSEEVENTF_LEFTDOWN: u32 = 0x0002;

pub const MOUSEEVENTF_LEFTUP: u32 = 0x0004;

pub const MOUSEEVENTF_RIGHTDOWN: u32 = 0x0008;

pub const MOUSEEVENTF_RIGHTUP: u32 = 0x0010;

pub const MOUSEEVENTF_MIDDLEDOWN: u32 = 0x0020;

pub const MOUSEEVENTF_MIDDLEUP: u32 = 0x0040;

pub const MOUSEEVENTF_XDOWN: u32 = 0x0080;

pub const MOUSEEVENTF_XUP: u32 = 0x0100;

pub const MOUSEEVENTF_WHEEL: u32 = 0x0800;

pub const MOUSEEVENTF_HWHEEL: u32 = 0x1000;

/// What one wheel detent counts.
pub const WHEEL_DELTA: i32 = 120;

/// The extra button "back".
pub const XBUTTON1: i32 = 1;

/// The extra button "forward".
pub const XBUTTON2: i32 = 2;

// ---------------------------------------------------------------------------
// Mouse input
// ---------------------------------------------------------------------------

/// A mouse record: what the `dwFlags` and `mouseData` fields hold.
#[derive(Debug, Clone, Copy, PartialEq, Eq, Structural)]
pub struct MouseInput {
    pub flags: u32,
    pub data: u32,
}

/// A mouse record with signed data, which the field holds in two's complement.
pub open spec fn mouse_record(flags: u32, data: int) -> MouseInput {
    MouseInput {
        flags,
        data: (if data < 0 {
            data + 0x1_0000_0000
        } else {
            data
        }) as u32,
    }
}

fn mouse_input(flags: u32, data: i32) -> (r: MouseInput)
    ensures
        r == mouse_record(flags, data as int),
{
    let bits = data as u32;
    assert(data >= 0 ==> bits == data) by (bit_vector)
        requires
            bits == data as u32,
    ;
    assert(data < 0 ==> bits == data + 0x1_0000_0000) by (bit_vector)
        requires
            bits == data as u32,
    ;
    MouseInput { flags, data: bits }
}

/// A mouse button.
#[derive(Debug, Clone, Copy, PartialEq, Eq, Structural)]
pub enum MouseButton {
    Left,
    Right,
    Middle,
    /// Extra button 4 ("back").
    Back,
    /// Extra button 5 ("forward").
    Forward,
}

/// A click: down, then up. The extra buttons share a pair of flags, and the data
/// says which of them it is.
pub open spec fn click_inputs(button: MouseButton) -> Seq<MouseInput> {
    match button {
        MouseButton::Left => seq![
            mouse_record(MOUSEEVENTF_LEFTDOWN, 0),
            mouse_record(MOUSEEVENTF_LEFTUP, 0),
        ],
        MouseButton::Right => seq![
            mouse_record(MOUSEEVENTF_RIGHTDOWN, 0),
            mouse_record(MOUSEEVENTF_RIGHTUP, 0),
        ],
        MouseButton::Middle => seq![
            mouse_record(MOUSEEVENTF_MIDDLEDOWN, 0),
            mouse_record(MOUSEEVENTF_MIDDLEUP, 0),
        ],
        MouseButton::Back => seq![
            mouse_record(MOUSEEVENTF_XDOWN, XBUTTON1 as int),
            mouse_record(MOUSEEVENTF_XUP, XBUTTON1 as int),
        ],
        MouseButton::Forward => seq![
            mouse_record(MOUSEEVENTF_XDOWN, XBUTTON2 as int),
            mouse_record(MOUSEEVENTF_XUP, XBUTTON2 as int),
        ],
    }
}

/// The records of a click.
pub fn post_click(button: MouseButton) -> (r: Vec<MouseInput>)
    ensures
        r@ == click_inputs(button),
{
    let (down, up, data): (u32, u32, i32) = match button {
        MouseButton::Left => (MOUSEEVENTF_LEFTDOWN, MOUSEEVENTF_LEFTUP, 0),
        MouseButton::Right => (MOUSEEVENTF_RIGHTDOWN, MOUSEEVENTF_RIGHTUP, 0),
        MouseButton::Middle => (MOUSEEVENTF_MIDDLEDOWN, MOUSEEVENTF_MIDDLEUP, 0),
        MouseButton::Back => (MOUSEEVENTF_XDOWN, MOUSEEVENTF_XUP, XBUTTON1),
        MouseButton::Forward => (MOUSEEVENTF_XDOWN, MOUSEEVENTF_XUP, XBUTTON2),
    };
    let r = vec![mouse_input(down, data), mouse_input(up, data)];
    assert(r@ =~= click_inputs(button));
    r
}

/// The records of a scroll action: one detent. Other actions have none.
pub open spec fn scroll_inputs(action: Action) -> Seq<MouseInput> {
    match action {
        Action::ScrollUp => seq![mouse_record(MOUSEEVENTF_WHEEL, WHEEL_DELTA as int)],
        Action::ScrollDown => seq![mouse_record(MOUSEEVENTF_WHEEL, -WHEEL_DELTA)],
        Action::HorizontalScrollLeft => seq![mouse_record(MOUSEEVENTF_HWHEEL, -WHEEL_DELTA)],
        Action::HorizontalScrollRight => seq![mouse_record(MOUSEEVENTF_HWHEEL, WHEEL_DELTA as int)],
        _ => Seq::empty(),
    }
}

/// The records of a scroll action.
pub fn post_scroll(action: &Action) -> (r: Vec<MouseInput>)
    ensures
        r@ == scroll_inputs(*action),
{
    let (flags, data): (u32, i32) = match action {
        Action::ScrollUp => (MOUSEEVENTF_WHEEL, WHEEL_DELTA),
        Action::ScrollDown => (MOUSEEVENTF_WHEEL, -WHEEL_DELTA),
        Action::HorizontalScrollLeft => (MOUSEEVENTF_HWHEEL, -WHEEL_DELTA),
        Action::HorizontalScrollRight => (MOUSEEVENTF_HWHEEL, WHEEL_DELTA),
        _ => {
            return Vec::new();
        },
    };
    let r = vec![mouse_input(flags, data)];
    assert(r@ =~= scroll_inputs(*action));
    r
}

/// The records of a turn of the thumb wheel: none where it did not turn, else a
/// number of detents, as many as fit.
pub open spec fn thumbwheel_inputs(delta: i32) -> Seq<MouseInput> {
    if delta == 0 {
        Seq::empty()
    } else {
        seq![mouse_record(MOUSEEVENTF_HWHEEL, saturated(delta * WHEEL_DELTA))]
    }
}

/// The records that re-inject a turn of the thumb wheel by `delta` lines.
pub fn post_horizontal_scroll(delta: i32) -> (r: Vec<MouseInput>)
    ensures
        r@ == thumbwheel_inputs(delta),
{
    if delta == 0 {
        return Vec::new();
    }
    let detent: i32 = WHEEL_DELTA;
    assert(-0x8000_0000 * 120 <= delta * detent <= 0x8000_0000 * 120) by (nonlinear_arith)
        requires
            detent == 120,
            -0x8000_0000 <= delta <= 0x7fff_ffff,
    ;
    let r = vec![mouse_input(MOUSEEVENTF_HWHEEL, saturate(delta as i64 * detent as i64))];
    assert(r@ =~= thumbwheel_inputs(delta));
    r
}

// ---------------------------------------------------------------------------
// Keyboard input
// ---------------------------------------------------------------------------

/// A key going down or up.
#[derive(Debug, Clone, Copy, PartialEq, Eq, Structural)]
pub struct Stroke {
    pub vk: u16,
    pub up: bool,
}

/// A key that is pressed and released while modifiers are held, which are released
/// backwards.
pub open spec fn strokes(vk: u16, modifiers: Seq<u16>) -> Seq<Stroke> {
    modifiers.map_values(|m: u16| Stroke { vk: m, up: false }) + seq![
        Stroke { vk, up: false },
        Stroke { vk, up: true },
    ] + modifiers.reverse().map_values(|m: u16| Stroke { vk: m, up: true })
}

/// The strokes of a key with modifiers held.
pub fn post_key(vk: u16, modifiers: &[u16]) -> (r: Vec<Stroke>)
    ensures
        r@ == strokes(vk, modifiers@),
{
    let mut inputs: Vec<Stroke> = Vec::new();
    let ghost held = modifiers@.map_values(|m: u16| Stroke { vk: m, up: false });
    let ghost released = modifiers@.reverse().map_values(|m: u16| Stroke { vk: m, up: true });
    let mut i: usize = 0;
    while i < modifiers.len()
        invariant
            i <= modifiers@.len(),
            held == modifiers@.map_values(|m: u16| Stroke { vk: m, up: false }),
            inputs@ == held.take(i as int),
        decreases modifiers@.len() - i,
    {
        inputs.push(Stroke { vk: modifiers[i], up: false });
        i = i + 1;
        assert(inputs@ =~= held.take(i as int));
    }
    assert(held.take(i as int) =~= held);
    inputs.push(Stroke { vk, up: false });
    inputs.push(Stroke { vk, up: true });
    let ghost pressed = inputs@;
    assert(inputs@ =~= pressed + released.take(0));
    while i > 0
        invariant
            i <= modifiers@.len(),
            released == modifiers@.reverse().map_values(|m: u16| Stroke { vk: m, up: true }),
            inputs@ == pressed + released.take(modifiers@.len() - i),
        decreases i,
    {
        i = i - 1;
        inputs.push(Stroke { vk: modifiers[i], up: true });
        assert(inputs@ =~= pressed + released.take(modifiers@.len() - i));
    }
    assert(inputs@ =~= strokes(vk, modifiers@));
    inputs
}

/// A keyboard record: what the `wVk`, `wScan` and `dwFlags` fields hold.
#[derive(Debug, Clone, Copy, PartialEq, Eq, Structural)]
pub struct KeyInput {
    pub vk: u16,
    pub scan: u16,
    pub flags: u32,
}

/// The keys that a keyboard reports as extended: the navigation block, the Windows
/// keys and the right-side modifiers.
pub open spec fn is_extended(vk: u16) -> bool {
    ||| 0x21 <= vk <= 0x28
    ||| vk == 0x2D || vk == 0x2E
    ||| vk == 0x5B || vk == 0x5C
    ||| vk == 0xA3 || vk == 0xA5
}

/// The record of a stroke, given the key's scan code, or `0` where it has none. A
/// scan code is preferred, since many global hotkey programs ignore records that
/// only have a virtual key.
pub open spec fn key_record(stroke: Stroke, scan: u16) -> KeyInput {
    KeyInput {
        vk: if scan != 0 {
            0
        } else {
            stroke.vk
        },
        scan,
        flags: (if scan != 0 {
            KEYEVENTF_SCANCODE
        } else {
            0
        } + if scan != 0 && is_extended(stroke.vk) {
            KEYEVENTF_EXTENDEDKEY
        } else {
            0
        } + if stroke.up {
            KEYEVENTF_KEYUP
        } else {
            0
        }) as u32,
    }
}

/// The record of a stroke. `scan` is the key's scan code, `0` where the keyboard
/// layout has none.
pub fn key_input(stroke: Stroke, scan: u16) -> (r: KeyInput)
    ensures
        r == key_record(stroke, scan),
{
    let mut flags: u32 = 0;
    let vk: u16 = stroke.vk;
    let mut w_vk: u16 = vk;
    if scan != 0 {
        flags = flags | KEYEVENTF_SCANCODE;
        if (0x21 <= vk && vk <= 0x28) || vk == 0x2D || vk == 0x2E || vk == 0x5B || vk == 0x5C
            || vk == 0xA3 || vk == 0xA5 {
            flags = flags | KEYEVENTF_EXTENDEDKEY;
        }
        w_vk = 0;
    }
    if stroke.up {
        flags = flags | KEYEVENTF_KEYUP;
    }
    assert(0u32 | 8u32 == 8u32 && 8u32 | 1u32 == 9u32 && 0u32 | 2u32 == 2u32 && 8u32 | 2u32 == 10u32
        && 9u32 | 2u32 == 11u32) by (bit_vector);
    KeyInput { vk: w_vk, scan, flags }
}

/// The Windows virtual key for a macOS `kVK_*` key code.
pub open spec fn windows_key(key_code: u16) -> Option<u16> {
    match key_code {
        0x00 => Some(0x41),
        0x0B => Some(0x42),
        0x08 => Some(0x43),
        0x02 => Some(0x44),
        0x0E => Some(0x45),
        0x03 => Some(0x46),
        0x05 => Some(0x47),
        0x04 => Some(0x48),
        0x22 => Some(0x49),
        0x26 => Some(0x4A),
        0x28 => Some(0x4B),
        0x25 => Some(0x4C),
        0x2E => Some(0x4D),
        0x2D => Some(0x4E),
        0x1F => Some(0x4F),
        0x23 => Some(0x50),
        0x0C => Some(0x51),
        0x0F => Some(0x52),
        0x01 => Some(0x53),
        0x11 => Some(0x54),
        0x20 => Some(0x55),
        0x09 => Some(0x56),
        0x0D => Some(0x57),
        0x07 => Some(0x58),
        0x10 => Some(0x59),
        0x06 => Some(0x5A),
        0x1D => Some(0x30),
        0x12 => Some(0x31),
        0x13 => Some(0x32),
        0x14 => Some(0x33),
        0x15 => Some(0x34),
        0x17 => Some(0x35),
        0x16 => Some(0x36),
        0x1A => Some(0x37),
        0x1C => Some(0x38),
        0x19 => Some(0x39),
        0x1B => Some(0xBD),
        0x18 => Some(0xBB),
        0x21 => Some(0xDB),
        0x1E => Some(0xDD),
        0x2A => Some(0xDC),
        0x29 => Some(0xBA),
        0x27 => Some(0xDE),
        0x2B => Some(0xBC),
        0x2F => Some(0xBE),
        0x2C => Some(0xBF),
        0x32 => Some(0xC0),
        0x24 => Some(0x0D),
        0x30 => Some(0x09),
        0x31 => Some(0x20),
        0x33 => Some(0x08),
        0x35 => Some(0x1B),
        0x73 => Some(0x24),
        0x77 => Some(0x23),
        0x74 => Some(0x21),
        0x79 => Some(0x22),
        0x75 => Some(0x2E),
        0x7B => Some(0x25),
        0x7C => Some(0x27),
        0x7D => Some(0x28),
        0x7E => Some(0x26),
        0x7A => Some(0x70),
        0x78 => Some(0x71),
        0x63 => Some(0x72),
        0x76 => Some(0x73),
        0x60 => Some(0x74),
        0x61 => Some(0x75),
        0x62 => Some(0x76),
        0x64 => Some(0x77),
        0x65 => Some(0x78),
        0x6D => Some(0x79),
        0x67 => Some(0x7A),
        0x6F => Some(0x7B),
        0x69 => Some(0x7C),
        0x6B => Some(0x7D),
        0x71 => Some(0x7E),
        0x6A => Some(0x7F),
        0x40 => Some(0x80),
        0x4F => Some(0x81),
        0x50 => Some(0x82),
        0x5A => Some(0x83),
        _ => None,
    }
}

/// Translate a macOS virtual key code to the equivalent Windows virtual-key code,
/// so that a chord recorded on a Mac fires the right key on Windows.
///
/// Covers letters, digits, the ANSI punctuation keys, whitespace and editing keys,
/// navigation, and F1 to F20. Modifier keys are applied from the chord's
/// modifiers; the numeric keypad, media and volume keys are not covered.
#[must_use]
pub fn mac_virtual_key_to_windows(key_code: u16) -> (r: Option<u16>)
    ensures
        r == windows_key(key_code),
{
    match key_code {
        // Letters (Windows VK_A..VK_Z = ASCII 'A'..'Z')
        0x00 => Some(0x41),  // A
        0x0B => Some(0x42),  // B
        0x08 => Some(0x43),  // C
        0x02 => Some(0x44),  // D
        0x0E => Some(0x45),  // E
        0x03 => Some(0x46),  // F
        0x05 => Some(0x47),  // G
        0x04 => Some(0x48),  // H
        0x22 => Some(0x49),  // I
        0x26 => Some(0x4A),  // J
        0x28 => Some(0x4B),  // K
        0x25 => Some(0x4C),  // L
        0x2E => Some(0x4D),  // M
        0x2D => Some(0x4E),  // N
        0x1F => Some(0x4F),  // O
        0x23 => Some(0x50),  // P
        0x0C => Some(0x51),  // Q
        0x0F => Some(0x52),  // R
        0x01 => Some(0x53),  // S
        0x11 => Some(0x54),  // T
        0x20 => Some(0x55),  // U
        0x09 => Some(0x56),  // V
        0x0D => Some(0x57),  // W
        0x07 => Some(0x58),  // X
        0x10 => Some(0x59),  // Y
        0x06 => Some(0x5A),  // Z
        // Digits (Windows VK_0..VK_9 = ASCII '0'..'9')
        0x1D => Some(0x30),  // 0
        0x12 => Some(0x31),  // 1
        0x13 => Some(0x32),  // 2
        0x14 => Some(0x33),  // 3
        0x15 => Some(0x34),  // 4
        0x17 => Some(0x35),  // 5
        0x16 => Some(0x36),  // 6
        0x1A => Some(0x37),  // 7
        0x1C => Some(0x38),  // 8
        0x19 => Some(0x39),  // 9
        // ANSI punctuation (Windows VK_OEM_*)
        0x1B => Some(0xBD),  // -  VK_OEM_MINUS
        0x18 => Some(0xBB),  // =  VK_OEM_PLUS
        0x21 => Some(0xDB),  // [  VK_OEM_4
        0x1E => Some(0xDD),  // ]  VK_OEM_6
        0x2A => Some(0xDC),  // \  VK_OEM_5
        0x29 => Some(0xBA),  // ;  VK_OEM_1
        0x27 => Some(0xDE),  // '  VK_OEM_7
        0x2B => Some(0xBC),  // ,  VK_OEM_COMMA
        0x2F => Some(0xBE),  // .  VK_OEM_PERIOD
        0x2C => Some(0xBF),  // /  VK_OEM_2
        0x32 => Some(0xC0),  // `  VK_OEM_3
        // Whitespace / editing
        0x24 => Some(0x0D),  // Return     VK_RETURN
        0x30 => Some(0x09),  // Tab        VK_TAB
        0x31 => Some(0x20),  // Space      VK_SPACE
        0x33 => Some(0x08),  // Backspace  VK_BACK
        0x35 => Some(0x1B),  // Escape     VK_ESCAPE
        // Navigation
        0x73 => Some(0x24),  // Home          VK_HOME
        0x77 => Some(0x23),  // End           VK_END
        0x74 => Some(0x21),  // PageUp        VK_PRIOR
        0x79 => Some(0x22),  // PageDown      VK_NEXT
        0x75 => Some(0x2E),  // ForwardDelete VK_DELETE
        0x7B => Some(0x25),  // LeftArrow     VK_LEFT
        0x7C => Some(0x27),  // RightArrow    VK_RIGHT
        0x7D => Some(0x28),  // DownArrow     VK_DOWN
        0x7E => Some(0x26),  // UpArrow       VK_UP
        // Function keys (Windows VK_F1 = 0x70, sequential through VK_F24)
        0x7A => Some(0x70),  // F1
        0x78 => Some(0x71),  // F2
        0x63 => Some(0x72),  // F3
        0x76 => Some(0x73),  // F4
        0x60 => Some(0x74),  // F5
        0x61 => Some(0x75),  // F6
        0x62 => Some(0x76),  // F7
        0x64 => Some(0x77),  // F8
        0x65 => Some(0x78),  // F9
        0x6D => Some(0x79),  // F10
        0x67 => Some(0x7A),  // F11
        0x6F => Some(0x7B),  // F12
        0x69 => Some(0x7C),  // F13
        0x6B => Some(0x7D),  // F14
        0x71 => Some(0x7E),  // F15
        0x6A => Some(0x7F),  // F16
        0x40 => Some(0x80),  // F17
        0x4F => Some(0x81),  // F18
        0x50 => Some(0x82),  // F19
        0x5A => Some(0x83),  // F20
        _ => None,
    }
}

/// The keys to hold for a modifier bitmask: Ctrl, Shift, Alt. Both Cmd and Ctrl
/// are Ctrl, which is held once.
pub open spec fn held_keys(modifiers: u8) -> Seq<u16> {
    held_where(modifiers, KeyCombo::MOD_CMD | KeyCombo::MOD_CTRL, VK_LCONTROL) + held_where(
        modifiers,
        KeyCombo::MOD_SHIFT,
        VK_LSHIFT,
    ) + held_where(modifiers, KeyCombo::MOD_OPTION, VK_LMENU)
}

// ---------------------------------------------------------------------------
// Actions
// ---------------------------------------------------------------------------

/// What an action comes to.
#[derive(Debug)]
pub enum WindowsStep {
    /// Send these strokes, in this order.
    Keys(Vec<Stroke>),
    /// Send these mouse records, in this order.
    Mouse(Vec<MouseInput>),
    /// Nothing.
    Skip(Skipped),
}

/// What a [`WindowsStep`] stands for.
pub enum WindowsStepView {
    Keys(Seq<Stroke>),
    Mouse(Seq<MouseInput>),
    Skip(Skipped),
}

impl View for WindowsStep {
    type V = WindowsStepView;

    open spec fn view(&self) -> WindowsStepView {
        match self {
            WindowsStep::Keys(keys) => WindowsStepView::Keys(keys@),
            WindowsStep::Mouse(inputs) => WindowsStepView::Mouse(inputs@),
            WindowsStep::Skip(why) => WindowsStepView::Skip(*why),
        }
    }
}

/// What a recorded shortcut comes to.
pub open spec fn shortcut_step(modifiers: u8, key_code: u16) -> WindowsStepView {
    if key_code == 0 {
        WindowsStepView::Skip(Skipped::NoKeyCode)
    } else {
        match windows_key(key_code) {
            Some(vk) => WindowsStepView::Keys(strokes(vk, held_keys(modifiers))),
            None => WindowsStepView::Skip(Skipped::Unmapped(key_code)),
        }
    }
}

/// The strokes of a recorded shortcut.
#[must_use]
pub fn post_custom_shortcut(combo: &KeyCombo) -> (r: WindowsStep)
    ensures
        r@ == shortcut_step(combo.modifiers, combo.key_code),
{
    if combo.key_code == 0 {
        return WindowsStep::Skip(Skipped::NoKeyCode);
    }
    match mac_virtual_key_to_windows(combo.key_code) {
        Some(vk) => {
            let mut modifiers: Vec<u16> = Vec::new();
            if combo.modifiers & (KeyCombo::MOD_CMD | KeyCombo::MOD_CTRL) != 0 {
                modifiers.push(VK_LCONTROL);
            }
            if combo.modifiers & KeyCombo::MOD_SHIFT != 0 {
                modifiers.push(VK_LSHIFT);
            }
            if combo.modifiers & KeyCombo::MOD_OPTION != 0 {
                modifiers.push(VK_LMENU);
            }
            assert(modifiers@ =~= held_keys(combo.modifiers));
            WindowsStep::Keys(post_key(vk, modifiers.as_slice()))
        },
        None => WindowsStep::Skip(Skipped::Unmapped(combo.key_code)),
    }
}

/// What each action comes to.
pub open spec fn windows_step(action: Action) -> WindowsStepView {
    match action {
        Action::LeftClick => WindowsStepView::Mouse(click_inputs(MouseButton::Left)),
        Action::RightClick => WindowsStepView::Mouse(click_inputs(MouseButton::Right)),
        Action::MiddleClick => WindowsStepView::Mouse(click_inputs(MouseButton::Middle)),
        Action::MouseBack => WindowsStepView::Mouse(click_inputs(MouseButton::Back)),
        Action::MouseForward => WindowsStepView::Mouse(click_inputs(MouseButton::Forward)),
        Action::Copy => WindowsStepView::Keys(strokes(VK_C, seq![VK_CONTROL])),
        Action::Paste => WindowsStepView::Keys(strokes(VK_V, seq![VK_CONTROL])),
        Action::Cut => WindowsStepView::Keys(strokes(VK_X, seq![VK_CONTROL])),
        Action::Undo => WindowsStepView::Keys(strokes(VK_Z, seq![VK_CONTROL])),
        Action::Redo => WindowsStepView::Keys(strokes(VK_Y, seq![VK_CONTROL])),
        Action::SelectAll => WindowsStepView::Keys(strokes(VK_A, seq![VK_CONTROL])),
        Action::Find => WindowsStepView::Keys(strokes(VK_F, seq![VK_CONTROL])),
        Action::Save => WindowsStepView::Keys(strokes(VK_S, seq![VK_CONTROL])),
        Action::BrowserBack => WindowsStepView::Keys(strokes(VK_BROWSER_BACK, Seq::empty())),
        Action::BrowserForward => WindowsStepView::Keys(strokes(VK_BROWSER_FORWARD, Seq::empty())),
        Action::NewTab => WindowsStepView::Keys(strokes(VK_T, seq![VK_CONTROL])),
        Action::CloseTab => WindowsStepView::Keys(strokes(VK_W, seq![VK_CONTROL])),
        Action::ReopenTab => WindowsStepView::Keys(strokes(VK_T, seq![VK_CONTROL, VK_SHIFT])),
        Action::NextTab => WindowsStepView::Keys(strokes(VK_TAB, seq![VK_CONTROL])),
        Action::PrevTab => WindowsStepView::Keys(strokes(VK_TAB, seq![VK_CONTROL, VK_SHIFT])),
        Action::ReloadPage => WindowsStepView::Keys(strokes(VK_R, seq![VK_CONTROL])),
        Action::MissionControl => WindowsStepView::Keys(strokes(VK_TAB, seq![VK_LWIN])),
        Action::AppExpose => WindowsStepView::Keys(strokes(VK_TAB, seq![VK_LWIN])),
        Action::PreviousDesktop => WindowsStepView::Keys(strokes(VK_LEFT, seq![VK_LWIN, VK_CONTROL])),
        Action::NextDesktop => WindowsStepView::Keys(strokes(VK_RIGHT, seq![VK_LWIN, VK_CONTROL])),
        Action::ShowDesktop => WindowsStepView::Keys(strokes(VK_D, seq![VK_LWIN])),
        Action::LaunchpadShow => WindowsStepView::Keys(strokes(VK_LWIN, Seq::empty())),
        Action::LockScreen => WindowsStepView::Keys(strokes(VK_L, seq![VK_LWIN])),
        Action::Screenshot => WindowsStepView::Keys(strokes(VK_S, seq![VK_LWIN, VK_SHIFT])),
        Action::CaptureRegion => WindowsStepView::Keys(strokes(VK_S, seq![VK_LWIN, VK_SHIFT])),
        Action::PlayPause => WindowsStepView::Keys(strokes(VK_MEDIA_PLAY_PAUSE, Seq::empty())),
        Action::NextTrack => WindowsStepView::Keys(strokes(VK_MEDIA_NEXT_TRACK, Seq::empty())),
        Action::PrevTrack => WindowsStepView::Keys(strokes(VK_MEDIA_PREV_TRACK, Seq::empty())),
        Action::VolumeUp => WindowsStepView::Keys(strokes(VK_VOLUME_UP, Seq::empty())),
        Action::VolumeDown => WindowsStepView::Keys(strokes(VK_VOLUME_DOWN, Seq::empty())),
        Action::MuteVolume => WindowsStepView::Keys(strokes(VK_VOLUME_MUTE, Seq::empty())),
        Action::ScrollUp => WindowsStepView::Mouse(scroll_inputs(action)),
        Action::ScrollDown => WindowsStepView::Mouse(scroll_inputs(action)),
        Action::HorizontalScrollLeft => WindowsStepView::Mouse(scroll_inputs(action)),
        Action::HorizontalScrollRight => WindowsStepView::Mouse(scroll_inputs(action)),
        Action::CycleDpiPresets => WindowsStepView::Skip(Skipped::DeviceSide),
        Action::SetDpiPreset(_) => WindowsStepView::Skip(Skipped::DeviceSide),
        Action::ToggleSmartShift => WindowsStepView::Skip(Skipped::DeviceSide),
        Action::CustomShortcut(combo) => shortcut_step(combo.modifiers, combo.key_code),
        Action::DoNothing => WindowsStepView::Skip(Skipped::Suppressed),
    }
}

/// The records of an action. Window-manager actions become their Windows
/// equivalents; Win+Shift+S opens the snip overlay, which serves both full-screen
/// and region capture.
#[must_use]
pub fn execute_windows(action: &Action) -> (r: WindowsStep)
    ensures
        r@ == windows_step(*action),
{
    let none: [u16; 0] = [];
    let ctrl: [u16; 1] = [VK_CONTROL];
    let win: [u16; 1] = [VK_LWIN];
    let ctrl_shift: [u16; 2] = [VK_CONTROL, VK_SHIFT];
    let win_ctrl: [u16; 2] = [VK_LWIN, VK_CONTROL];
    let win_shift: [u16; 2] = [VK_LWIN, VK_SHIFT];
    assert(none@ =~= Seq::empty());
    assert(ctrl@ =~= seq![VK_CONTROL]);
    assert(win@ =~= seq![VK_LWIN]);
    assert(ctrl_shift@ =~= seq![VK_CONTROL, VK_SHIFT]);
    assert(win_ctrl@ =~= seq![VK_LWIN, VK_CONTROL]);
    assert(win_shift@ =~= seq![VK_LWIN, VK_SHIFT]);
    match action {
        Action::LeftClick => WindowsStep::Mouse(post_click(MouseButton::Left)),
        Action::RightClick => WindowsStep::Mouse(post_click(MouseButton::Right)),
        Action::MiddleClick => WindowsStep::Mouse(post_click(MouseButton::Middle)),
        Action::MouseBack => WindowsStep::Mouse(post_click(MouseButton::Back)),
        Action::MouseForward => WindowsStep::Mouse(post_click(MouseButton::Forward)),
        Action::Copy => WindowsStep::Keys(post_key(VK_C, &ctrl)),
        Action::Paste => WindowsStep::Keys(post_key(VK_V, &ctrl)),
        Action::Cut => WindowsStep::Keys(post_key(VK_X, &ctrl)),
        Action::Undo => WindowsStep::Keys(post_key(VK_Z, &ctrl)),
        Action::Redo => WindowsStep::Keys(post_key(VK_Y, &ctrl)),
        Action::SelectAll => WindowsStep::Keys(post_key(VK_A, &ctrl)),
        Action::Find => WindowsStep::Keys(post_key(VK_F, &ctrl)),
        Action::Save => WindowsStep::Keys(post_key(VK_S, &ctrl)),
        Action::BrowserBack => WindowsStep::Keys(post_key(VK_BROWSER_BACK, &none)),
        Action::BrowserForward => WindowsStep::Keys(post_key(VK_BROWSER_FORWARD, &none)),
        Action::NewTab => WindowsStep::Keys(post_key(VK_T, &ctrl)),
        Action::CloseTab => WindowsStep::Keys(post_key(VK_W, &ctrl)),
        Action::ReopenTab => WindowsStep::Keys(post_key(VK_T, &ctrl_shift)),
        Action::NextTab => WindowsStep::Keys(post_key(VK_TAB, &ctrl)),
        Action::PrevTab => WindowsStep::Keys(post_key(VK_TAB, &ctrl_shift)),
        Action::ReloadPage => WindowsStep::Keys(post_key(VK_R, &ctrl)),
        Action::MissionControl | Action::AppExpose => WindowsStep::Keys(post_key(VK_TAB, &win)),
        Action::PreviousDesktop => WindowsStep::Keys(post_key(VK_LEFT, &win_ctrl)),
        Action::NextDesktop => WindowsStep::Keys(post_key(VK_RIGHT, &win_ctrl)),
        Action::ShowDesktop => WindowsStep::Keys(post_key(VK_D, &win)),
        Action::LaunchpadShow => WindowsStep::Keys(post_key(VK_LWIN, &none)),
        Action::LockScreen => WindowsStep::Keys(post_key(VK_L, &win)),
        Action::Screenshot | Action::CaptureRegion => WindowsStep::Keys(post_key(VK_S, &win_shift)),
        Action::PlayPause => WindowsStep::Keys(post_key(VK_MEDIA_PLAY_PAUSE, &none)),
        Action::NextTrack => WindowsStep::Keys(post_key(VK_MEDIA_NEXT_TRACK, &none)),
        Action::PrevTrack => WindowsStep::Keys(post_key(VK_MEDIA_PREV_TRACK, &none)),
        Action::VolumeUp => WindowsStep::Keys(post_key(VK_VOLUME_UP, &none)),
        Action::VolumeDown => WindowsStep::Keys(post_key(VK_VOLUME_DOWN, &none)),
        Action::MuteVolume => WindowsStep::Keys(post_key(VK_VOLUME_MUTE, &none)),
        Action::ScrollUp
        | Action::ScrollDown
        | Action::HorizontalScrollLeft
        | Action::HorizontalScrollRight => WindowsStep::Mouse(post_scroll(action)),
        Action::CycleDpiPresets | Action::SetDpiPreset(_) | Action::ToggleSmartShift => {
            WindowsStep::Skip(Skipped::DeviceSide)
        },
        Action::CustomShortcut(combo) => post_custom_shortcut(combo),
        Action::DoNothing => WindowsStep::Skip(Skipped::Suppressed),
    }
}

// ---------------------------------------------------------------------------
// Laws
// ---------------------------------------------------------------------------

/// Every key that is pressed is released, in the opposite order.
pub proof fn law_strokes_are_balanced(vk: u16, modifiers: Seq<u16>, i: int)
    requires
        0 <= i < strokes(vk, modifiers).len(),
    ensures
        ({
            let all = strokes(vk, modifiers);
            let n = all.len();
            &&& n == 2 * modifiers.len() + 2
            &&& all[i].up <==> i > modifiers.len()
            &&& all[n - 1 - i] == (Stroke { up: !all[i].up, ..all[i] })
        }),
{
}

/// The data of a mouse record reads back as the signed number that it was made of.
pub proof fn law_mouse_data_reads_back(flags: u32, data: i32)
    ensures
        mouse_record(flags, data as int).data as i32 == data,
{
    let bits = mouse_record(flags, data as int).data;
    if data >= 0 {
        assert(bits == data);
        assert(bits as i32 == data) by (bit_vector)
            requires
                bits == data,
        ;
    } else {
        assert(bits == data + 0x1_0000_0000);
        assert(bits as i32 == data) by (bit_vector)
            requires
                bits == data + 0x1_0000_0000,
                data < 0,
        ;
    }
}

/// No two recorded keys become the same Windows key.
pub proof fn law_windows_keys_are_distinct(a: u16, b: u16)
    requires
        windows_key(a) is Some,
        windows_key(a) == windows_key(b),
    ensures
        a == b,
{
}

/// A chord that fires on Linux fires on Windows too.
pub proof fn law_windows_has_every_linux_key(key_code: u16)
    ensures
        linux_key(key_code) is Some ==> windows_key(key_code) is Some,
{
}

/// A letter or digit that is typed into a chord is the very key that is pressed:
/// Windows numbers these keys by their characters.
pub proof fn law_typed_character_is_pressed(c: char)
    ensures
        char_key(c) matches Some(key_code) ==> windows_key(key_code) == Some(c as u16),
{
}

/// Every chord that can be typed is injected, but for the one key whose code is
/// zero.
pub proof fn law_typed_chord_is_injected(input: Seq<char>)
    ensures
        parsed(input) matches Ok(chord) ==> if chord.key_code == 0 {
            shortcut_step(chord.modifiers, chord.key_code) == WindowsStepView::Skip(
                Skipped::NoKeyCode,
            )
        } else {
            shortcut_step(chord.modifiers, chord.key_code) is Keys
        },
{
}

/// The virtual keys and flags of the Windows headers.
pub proof fn law_codes()
    ensures
        VK_TAB == 0x09,
        VK_SHIFT == 0x10,
        VK_CONTROL == 0x11,
        VK_LEFT == 0x25,
        VK_RIGHT == 0x27,
        VK_A == 0x41,
        VK_C == 0x43,
        VK_D == 0x44,
        VK_F == 0x46,
        VK_L == 0x4C,
        VK_R == 0x52,
        VK_S == 0x53,
        VK_T == 0x54,
        VK_V == 0x56,
        VK_W == 0x57,
        VK_X == 0x58,
        VK_Y == 0x59,
        VK_Z == 0x5A,
        VK_LWIN == 0x5B,
        VK_LSHIFT == 0xA0,
        VK_LCONTROL == 0xA2,
        VK_LMENU == 0xA4,
        VK_BROWSER_BACK == 0xA6,
        VK_BROWSER_FORWARD == 0xA7,
        VK_VOLUME_MUTE == 0xAD,
        VK_VOLUME_DOWN == 0xAE,
        VK_VOLUME_UP == 0xAF,
        VK_MEDIA_NEXT_TRACK == 0xB0,
        VK_MEDIA_PREV_TRACK == 0xB1,
        VK_MEDIA_PLAY_PAUSE == 0xB3,
        KEYEVENTF_EXTENDEDKEY == 1,
        KEYEVENTF_KEYUP == 2,
        KEYEVENTF_SCANCODE == 8,
        MOUSEEVENTF_LEFTDOWN == 0x0002,
        MOUSEEVENTF_LEFTUP == 0x0004,
        MOUSEEVENTF_RIGHTDOWN == 0x0008,
        MOUSEEVENTF_RIGHTUP == 0x0010,
        MOUSEEVENTF_MIDDLEDOWN == 0x0020,
        MOUSEEVENTF_MIDDLEUP == 0x0040,
        MOUSEEVENTF_XDOWN == 0x0080,
        MOUSEEVENTF_XUP == 0x0100,
        MOUSEEVENTF_WHEEL == 0x0800,
        MOUSEEVENTF_HWHEEL == 0x1000,
        WHEEL_DELTA == 120,
        XBUTTON1 == 1,
        XBUTTON2 == 2,
{
}

/// A mouse record keeps its flags and holds its number in two's complement.
pub proof fn law_mouse_record(flags: u32, data: i32)
    ensures
        mouse_record(flags, data as int).flags == flags,
        data >= 0 ==> mouse_record(flags, data as int).data == data,
        data < 0 ==> mouse_record(flags, data as int).data == data + 0x1_0000_0000,
{
}

/// A click is two records, down and up. The two extra buttons are told apart by a number.
pub proof fn law_click_records()
    ensures
        click_inputs(MouseButton::Left) == seq![
            MouseInput { flags: 0x02, data: 0 },
            MouseInput { flags: 0x04, data: 0 },
        ],
        click_inputs(MouseButton::Right) == seq![
            MouseInput { flags: 0x08, data: 0 },
            MouseInput { flags: 0x10, data: 0 },
        ],
        click_inputs(MouseButton::Middle) == seq![
            MouseInput { flags: 0x20, data: 0 },
            MouseInput { flags: 0x40, data: 0 },
        ],
        click_inputs(MouseButton::Back) == seq![
            MouseInput { flags: 0x80, data: 1 },
            MouseInput { flags: 0x100, data: 1 },
        ],
        click_inputs(MouseButton::Forward) == seq![
            MouseInput { flags: 0x80, data: 2 },
            MouseInput { flags: 0x100, data: 2 },
        ],
{
}

/// A scroll action turns its wheel by one detent of 120, up and right being positive.
pub proof fn law_scroll_records(action: Action)
    ensures
        scroll_inputs(Action::ScrollUp) == seq![MouseInput { flags: 0x800, data: 120 }],
        scroll_inputs(Action::ScrollDown) == seq![
            MouseInput { flags: 0x800, data: (0x1_0000_0000 - 120) as u32 },
        ],
        scroll_inputs(Action::HorizontalScrollRight) == seq![
            MouseInput { flags: 0x1000, data: 120 },
        ],
        scroll_inputs(Action::HorizontalScrollLeft) == seq![
            MouseInput { flags: 0x1000, data: (0x1_0000_0000 - 120) as u32 },
        ],
        !(action is ScrollUp) && !(action is ScrollDown) && !(action is HorizontalScrollRight)
            && !(action is HorizontalScrollLeft) ==> scroll_inputs(action).len() == 0,
{
}

/// The thumb wheel turns by 120 for each line, no further than fits, and not at all where it
/// was not turned.
pub proof fn law_thumbwheel_records(delta: i32)
    ensures
        thumbwheel_inputs(0).len() == 0,
        delta != 0 ==> thumbwheel_inputs(delta).len() == 1,
        delta != 0 ==> thumbwheel_inputs(delta)[0].flags == 0x1000,
        0 < delta && delta * 120 <= i32::MAX ==> thumbwheel_inputs(delta)[0].data == delta * 120,
        delta < 0 && delta * 120 >= i32::MIN ==> thumbwheel_inputs(delta)[0].data == delta * 120
            + 0x1_0000_0000,
        delta * 120 > i32::MAX ==> thumbwheel_inputs(delta)[0].data == 0x7FFF_FFFF,
        delta * 120 < i32::MIN ==> thumbwheel_inputs(delta)[0].data == 0x8000_0000,
{
}

/// The key that a press is about goes down after the modifiers and up before them, and the
/// modifiers go down in the order that they are given in.
pub proof fn law_stroke_order(vk: u16, modifiers: Seq<u16>, i: int)
    ensures
        strokes(vk, modifiers)[modifiers.len() as int] == (Stroke { vk, up: false }),
        strokes(vk, modifiers)[(modifiers.len() + 1) as int] == (Stroke { vk, up: true }),
        0 <= i < modifiers.len() ==> strokes(vk, modifiers)[i] == (Stroke {
            vk: modifiers[i],
            up: false,
        }),
{
}

/// The record of a stroke: by scan code where there is one, with the mark of an extended key
/// where it is one, else by virtual key; and with the mark of a release on the way up.
pub proof fn law_key_record(vk: u16, scan: u16)
    ensures
        scan == 0 ==> key_record(Stroke { vk, up: false }, scan) == (KeyInput {
            vk,
            scan: 0,
            flags: 0,
        }),
        scan == 0 ==> key_record(Stroke { vk, up: true }, scan) == (KeyInput {
            vk,
            scan: 0,
            flags: 2,
        }),
        scan != 0 && !is_extended(vk) ==> key_record(Stroke { vk, up: false }, scan) == (KeyInput {
            vk: 0,
            scan,
            flags: 8,
        }),
        scan != 0 && !is_extended(vk) ==> key_record(Stroke { vk, up: true }, scan) == (KeyInput {
            vk: 0,
            scan,
            flags: 10,
        }),
        scan != 0 && is_extended(vk) ==> key_record(Stroke { vk, up: false }, scan) == (KeyInput {
            vk: 0,
            scan,
            flags: 9,
        }),
        scan != 0 && is_extended(vk) ==> key_record(Stroke { vk, up: true }, scan) == (KeyInput {
            vk: 0,
            scan,
            flags: 11,
        }),
{
}

/// The extended keys: page up and down, end, home and the arrows, insert and delete, the
/// Windows keys, right Ctrl and right Alt.
pub proof fn law_extended_keys(vk: u16)
    ensures
        is_extended(vk) <==> (vk == 0x21 || vk == 0x22 || vk == 0x23 || vk == 0x24 || vk == 0x25
            || vk == 0x26 || vk == 0x27 || vk == 0x28 || vk == 0x2D || vk == 0x2E || vk == 0x5B
            || vk == 0x5C || vk == 0xA3 || vk == 0xA5),
{
}

/// The virtual key for each recorded key. No other code has one.
pub proof fn law_windows_keys(key_code: u16)
    ensures
        windows_key(0x00) == Some(0x41u16),
        windows_key(0x0B) == Some(0x42u16),
        windows_key(0x08) == Some(0x43u16),
        windows_key(0x02) == Some(0x44u16),
        windows_key(0x0E) == Some(0x45u16),
        windows_key(0x03) == Some(0x46u16),
        windows_key(0x05) == Some(0x47u16),
        windows_key(0x04) == Some(0x48u16),
        windows_key(0x22) == Some(0x49u16),
        windows_key(0x26) == Some(0x4Au16),
        windows_key(0x28) == Some(0x4Bu16),
        windows_key(0x25) == Some(0x4Cu16),
        windows_key(0x2E) == Some(0x4Du16),
        windows_key(0x2D) == Some(0x4Eu16),
        windows_key(0x1F) == Some(0x4Fu16),
        windows_key(0x23) == Some(0x50u16),
        windows_key(0x0C) == Some(0x51u16),
        windows_key(0x0F) == Some(0x52u16),
        windows_key(0x01) == Some(0x53u16),
        windows_key(0x11) == Some(0x54u16),
        windows_key(0x20) == Some(0x55u16),
        windows_key(0x09) == Some(0x56u16),
        windows_key(0x0D) == Some(0x57u16),
        windows_key(0x07) == Some(0x58u16),
        windows_key(0x10) == Some(0x59u16),
        windows_key(0x06) == Some(0x5Au16),
        windows_key(0x1D) == Some(0x30u16),
        windows_key(0x12) == Some(0x31u16),
        windows_key(0x13) == Some(0x32u16),
        windows_key(0x14) == Some(0x33u16),
        windows_key(0x15) == Some(0x34u16),
        windows_key(0x17) == Some(0x35u16),
        windows_key(0x16) == Some(0x36u16),
        windows_key(0x1A) == Some(0x37u16),
        windows_key(0x1C) == Some(0x38u16),
        windows_key(0x19) == Some(0x39u16),
        windows_key(0x1B) == Some(0xBDu16),
        windows_key(0x18) == Some(0xBBu16),
        windows_key(0x21) == Some(0xDBu16),
        windows_key(0x1E) == Some(0xDDu16),
        windows_key(0x2A) == Some(0xDCu16),
        windows_key(0x29) == Some(0xBAu16),
        windows_key(0x27) == Some(0xDEu16),
        windows_key(0x2B) == Some(0xBCu16),
        windows_key(0x2F) == Some(0xBEu16),
        windows_key(0x2C) == Some(0xBFu16),
        windows_key(0x32) == Some(0xC0u16),
        windows_key(0x24) == Some(0x0Du16),
        windows_key(0x30) == Some(0x09u16),
        windows_key(0x31) == Some(0x20u16),
        windows_key(0x33) == Some(0x08u16),
        windows_key(0x35) == Some(0x1Bu16),
        windows_key(0x73) == Some(0x24u16),
        windows_key(0x77) == Some(0x23u16),
        windows_key(0x74) == Some(0x21u16),
        windows_key(0x79) == Some(0x22u16),
        windows_key(0x75) == Some(0x2Eu16),
        windows_key(0x7B) == Some(0x25u16),
        windows_key(0x7C) == Some(0x27u16),
        windows_key(0x7D) == Some(0x28u16),
        windows_key(0x7E) == Some(0x26u16),
        windows_key(0x7A) == Some(0x70u16),
        windows_key(0x78) == Some(0x71u16),
        windows_key(0x63) == Some(0x72u16),
        windows_key(0x76) == Some(0x73u16),
        windows_key(0x60) == Some(0x74u16),
        windows_key(0x61) == Some(0x75u16),
        windows_key(0x62) == Some(0x76u16),
        windows_key(0x64) == Some(0x77u16),
        windows_key(0x65) == Some(0x78u16),
        windows_key(0x6D) == Some(0x79u16),
        windows_key(0x67) == Some(0x7Au16),
        windows_key(0x6F) == Some(0x7Bu16),
        windows_key(0x69) == Some(0x7Cu16),
        windows_key(0x6B) == Some(0x7Du16),
        windows_key(0x71) == Some(0x7Eu16),
        windows_key(0x6A) == Some(0x7Fu16),
        windows_key(0x40) == Some(0x80u16),
        windows_key(0x4F) == Some(0x81u16),
        windows_key(0x50) == Some(0x82u16),
        windows_key(0x5A) == Some(0x83u16),
        windows_key(key_code) is Some ==> (key_code == 0x00 || key_code == 0x0B
            || key_code == 0x08 || key_code == 0x02 || key_code == 0x0E || key_code == 0x03
            || key_code == 0x05 || key_code == 0x04 || key_code == 0x22 || key_code == 0x26
            || key_code == 0x28 || key_code == 0x25 || key_code == 0x2E || key_code == 0x2D
            || key_code == 0x1F || key_code == 0x23 || key_code == 0x0C || key_code == 0x0F
            || key_code == 0x01 || key_code == 0x11 || key_code == 0x20 || key_code == 0x09
            || key_code == 0x0D || key_code == 0x07 || key_code == 0x10 || key_code == 0x06
            || key_code == 0x1D || key_code == 0x12 || key_code == 0x13 || key_code == 0x14
            || key_code == 0x15 || key_code == 0x17 || key_code == 0x16 || key_code == 0x1A
            || key_code == 0x1C || key_code == 0x19 || key_code == 0x1B || key_code == 0x18
            || key_code == 0x21 || key_code == 0x1E || key_code == 0x2A || key_code == 0x29
            || key_code == 0x27 || key_code == 0x2B || key_code == 0x2F || key_code == 0x2C
            || key_code == 0x32 || key_code == 0x24 || key_code == 0x30 || key_code == 0x31
            || key_code == 0x33 || key_code == 0x35 || key_code == 0x73 || key_code == 0x77
            || key_code == 0x74 || key_code == 0x79 || key_code == 0x75 || key_code == 0x7B
            || key_code == 0x7C || key_code == 0x7D || key_code == 0x7E || key_code == 0x7A
            || key_code == 0x78 || key_code == 0x63 || key_code == 0x76 || key_code == 0x60
            || key_code == 0x61 || key_code == 0x62 || key_code == 0x64 || key_code == 0x65
            || key_code == 0x6D || key_code == 0x67 || key_code == 0x6F || key_code == 0x69
            || key_code == 0x6B || key_code == 0x71 || key_code == 0x6A || key_code == 0x40
            || key_code == 0x4F || key_code == 0x50 || key_code == 0x5A),
{
}

/// The keys that are held for a chord, in order: left Ctrl for Cmd or Ctrl, then left Shift,
/// then left Alt.
pub proof fn law_held_order(modifiers: u8)
    ensures
        held_keys(modifiers) == if modifiers & 1 != 0 || modifiers & 4 != 0 {
            seq![0xA2u16]
        } else {
            Seq::empty()
        } + if modifiers & 2 != 0 {
            seq![0xA0u16]
        } else {
            Seq::empty()
        } + if modifiers & 8 != 0 {
            seq![0xA4u16]
        } else {
            Seq::empty()
        },
{
    assert(modifiers & (1u8 | 4u8) != 0 <==> modifiers & 1u8 != 0 || modifiers & 4u8 != 0)
        by (bit_vector);
}

/// A recorded shortcut presses its key with its modifiers held. Without a key, or with one
/// that Windows has no key for, it presses nothing and says why.
pub proof fn law_recorded_shortcut(combo: KeyCombo)
    ensures
        combo.key_code == 0 ==> windows_step(Action::CustomShortcut(combo))
            == WindowsStepView::Skip(Skipped::NoKeyCode),
        combo.key_code != 0 && windows_key(combo.key_code) is Some ==> windows_step(
            Action::CustomShortcut(combo),
        ) == WindowsStepView::Keys(
            strokes(windows_key(combo.key_code)->Some_0, held_keys(combo.modifiers)),
        ),
        combo.key_code != 0 && windows_key(combo.key_code) is None ==> windows_step(
            Action::CustomShortcut(combo),
        ) == WindowsStepView::Skip(Skipped::Unmapped(combo.key_code)),
        shortcut_step(combo.modifiers, combo.key_code) == windows_step(
            Action::CustomShortcut(combo),
        ),
{
}

/// The keys that an action holds for modifiers, without regard to the side of the keyboard:
/// the Windows key, Ctrl and Shift.
pub open spec fn sideless_keys(modifiers: u8) -> Seq<u16> {
    held_where(modifiers, 1, 0x5B) + held_where(modifiers, 4, 0x11) + held_where(modifiers, 2, 0x10)
}

/// Whether an action presses the keys of the chord that `text` writes.
#[verifier::opaque]
pub open spec fn presses(action: Action, text: Seq<char>) -> bool {
    parsed(text) matches Ok(chord) && windows_key(chord.key_code) is Some && windows_step(action)
        == WindowsStepView::Keys(
        strokes(windows_key(chord.key_code)->Some_0, sideless_keys(chord.modifiers)),
    )
}

proof fn lemma_presses(action: Action, text: Seq<char>, modifiers: u8, key_code: u16)
    requires
        types(text, modifiers, key_code),
        windows_key(key_code) is Some,
        windows_step(action) == WindowsStepView::Keys(
            strokes(windows_key(key_code)->Some_0, sideless_keys(modifiers)),
        ),
    ensures
        presses(action, text),
{
    reveal(types);
    reveal(presses);
}

proof fn lemma_sideless_keys()
    ensures
        sideless_keys(4) == seq![0x11u16],
        sideless_keys(6) == seq![0x11u16, 0x10u16],
        sideless_keys(1) == seq![0x5Bu16],
        sideless_keys(5) == seq![0x5Bu16, 0x11u16],
        sideless_keys(3) == seq![0x5Bu16, 0x10u16],
{
    assert(4u8 & 1u8 == 0 && 4u8 & 4u8 != 0 && 4u8 & 2u8 == 0 && 6u8 & 1u8 == 0 && 6u8 & 4u8 != 0
        && 6u8 & 2u8 != 0 && 1u8 & 1u8 != 0 && 1u8 & 4u8 == 0 && 1u8 & 2u8 == 0 && 5u8 & 1u8 != 0
        && 5u8 & 4u8 != 0 && 5u8 & 2u8 == 0 && 3u8 & 1u8 != 0 && 3u8 & 4u8 == 0 && 3u8 & 2u8 != 0)
        by (bit_vector);
    assert(sideless_keys(4) =~= seq![0x11u16]);
    assert(sideless_keys(6) =~= seq![0x11u16, 0x10u16]);
    assert(sideless_keys(1) =~= seq![0x5Bu16]);
    assert(sideless_keys(5) =~= seq![0x5Bu16, 0x11u16]);
    assert(sideless_keys(3) =~= seq![0x5Bu16, 0x10u16]);
}

/// Each editing and tab action presses the chord that it is known by.
pub proof fn law_actions_press_their_chords()
    ensures
        presses(Action::Copy, "Ctrl+C"@),
        presses(Action::Paste, "Ctrl+V"@),
        presses(Action::Cut, "Ctrl+X"@),
        presses(Action::Undo, "Ctrl+Z"@),
        presses(Action::Redo, "Ctrl+Y"@),
        presses(Action::SelectAll, "Ctrl+A"@),
        presses(Action::Find, "Ctrl+F"@),
        presses(Action::Save, "Ctrl+S"@),
        presses(Action::NewTab, "Ctrl+T"@),
        presses(Action::CloseTab, "Ctrl+W"@),
        presses(Action::ReopenTab, "Ctrl+Shift+T"@),
        presses(Action::NextTab, "Ctrl+Tab"@),
        presses(Action::PrevTab, "Ctrl+Shift+Tab"@),
        presses(Action::ReloadPage, "Ctrl+R"@),
{
    law_control_chords();
    lemma_sideless_keys();
    lemma_presses(Action::Copy, "Ctrl+C"@, 4, 0x08);
    lemma_presses(Action::Paste, "Ctrl+V"@, 4, 0x09);
    lemma_presses(Action::Cut, "Ctrl+X"@, 4, 0x07);
    lemma_presses(Action::Undo, "Ctrl+Z"@, 4, 0x06);
    lemma_presses(Action::Redo, "Ctrl+Y"@, 4, 0x10);
    lemma_presses(Action::SelectAll, "Ctrl+A"@, 4, 0x00);
    lemma_presses(Action::Find, "Ctrl+F"@, 4, 0x03);
    lemma_presses(Action::Save, "Ctrl+S"@, 4, 0x01);
    lemma_presses(Action::NewTab, "Ctrl+T"@, 4, 0x11);
    lemma_presses(Action::CloseTab, "Ctrl+W"@, 4, 0x0D);
    lemma_presses(Action::ReopenTab, "Ctrl+Shift+T"@, 6, 0x11);
    lemma_presses(Action::NextTab, "Ctrl+Tab"@, 4, 0x30);
    lemma_presses(Action::PrevTab, "Ctrl+Shift+Tab"@, 6, 0x30);
    lemma_presses(Action::ReloadPage, "Ctrl+R"@, 4, 0x0F);
}

/// Each window and capture action presses the chord of the Windows shell for it.
pub proof fn law_window_actions_press_their_chords()
    ensures
        presses(Action::MissionControl, "Win+Tab"@),
        presses(Action::AppExpose, "Win+Tab"@),
        presses(Action::PreviousDesktop, "Win+Ctrl+Left"@),
        presses(Action::NextDesktop, "Win+Ctrl+Right"@),
        presses(Action::ShowDesktop, "Win+D"@),
        presses(Action::LockScreen, "Win+L"@),
        presses(Action::Screenshot, "Win+Shift+S"@),
        presses(Action::CaptureRegion, "Win+Shift+S"@),
{
    law_windows_chords();
    lemma_sideless_keys();
    lemma_presses(Action::MissionControl, "Win+Tab"@, 1, 0x30);
    lemma_presses(Action::AppExpose, "Win+Tab"@, 1, 0x30);
    lemma_presses(Action::PreviousDesktop, "Win+Ctrl+Left"@, 5, 0x7B);
    lemma_presses(Action::NextDesktop, "Win+Ctrl+Right"@, 5, 0x7C);
    lemma_presses(Action::ShowDesktop, "Win+D"@, 1, 0x02);
    lemma_presses(Action::LockScreen, "Win+L"@, 1, 0x25);
    lemma_presses(Action::Screenshot, "Win+Shift+S"@, 3, 0x01);
    lemma_presses(Action::CaptureRegion, "Win+Shift+S"@, 3, 0x01);
}

/// What the other actions come to: clicks of their buttons, keys of their own, the wheels,
/// or nothing.
pub proof fn law_other_actions(preset: u8)
    ensures
        windows_step(Action::LeftClick) == WindowsStepView::Mouse(click_inputs(MouseButton::Left)),
        windows_step(Action::RightClick) == WindowsStepView::Mouse(
            click_inputs(MouseButton::Right),
        ),
        windows_step(Action::MiddleClick) == WindowsStepView::Mouse(
            click_inputs(MouseButton::Middle),
        ),
        windows_step(Action::MouseBack) == WindowsStepView::Mouse(click_inputs(MouseButton::Back)),
        windows_step(Action::MouseForward) == WindowsStepView::Mouse(
            click_inputs(MouseButton::Forward),
        ),
        windows_step(Action::ScrollUp) == WindowsStepView::Mouse(scroll_inputs(Action::ScrollUp)),
        windows_step(Action::ScrollDown) == WindowsStepView::Mouse(
            scroll_inputs(Action::ScrollDown),
        ),
        windows_step(Action::HorizontalScrollLeft) == WindowsStepView::Mouse(
            scroll_inputs(Action::HorizontalScrollLeft),
        ),
        windows_step(Action::HorizontalScrollRight) == WindowsStepView::Mouse(
            scroll_inputs(Action::HorizontalScrollRight),
        ),
        windows_step(Action::LaunchpadShow) == WindowsStepView::Keys(strokes(0x5B, Seq::empty())),
        windows_step(Action::BrowserBack) == WindowsStepView::Keys(strokes(0xA6, Seq::empty())),
        windows_step(Action::BrowserForward) == WindowsStepView::Keys(strokes(0xA7, Seq::empty())),
        windows_step(Action::MuteVolume) == WindowsStepView::Keys(strokes(0xAD, Seq::empty())),
        windows_step(Action::VolumeDown) == WindowsStepView::Keys(strokes(0xAE, Seq::empty())),
        windows_step(Action::VolumeUp) == WindowsStepView::Keys(strokes(0xAF, Seq::empty())),
        windows_step(Action::NextTrack) == WindowsStepView::Keys(strokes(0xB0, Seq::empty())),
        windows_step(Action::PrevTrack) == WindowsStepView::Keys(strokes(0xB1, Seq::empty())),
        windows_step(Action::PlayPause) == WindowsStepView::Keys(strokes(0xB3, Seq::empty())),
        windows_step(Action::CycleDpiPresets) == WindowsStepView::Skip(Skipped::DeviceSide),
        windows_step(Action::SetDpiPreset(preset)) == WindowsStepView::Skip(Skipped::DeviceSide),
        windows_step(Action::ToggleSmartShift) == WindowsStepView::Skip(Skipped::DeviceSide),
        windows_step(Action::DoNothing) == WindowsStepView::Skip(Skipped::Suppressed),
{
}

/// A step shows what it is.
pub proof fn law_steps_show_what_they_are(
    keys: Vec<Stroke>,
    inputs: Vec<MouseInput>,
    why: Skipped,
)
    ensures
        WindowsStep::Keys(keys)@ == WindowsStepView::Keys(keys@),
        WindowsStep::Mouse(inputs)@ == WindowsStepView::Mouse(inputs@),
        WindowsStep::Skip(why)@ == WindowsStepView::Skip(why),
{
}

} // verus!
