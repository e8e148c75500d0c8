//! The Linux input event codes that the injector uses, from
//! `linux/input-event-codes.h`.
use vstd::prelude::*;

verus! {

/// Event type of the marker that ends a frame.
pub const EV_SYN: u16 = 0x00;

/// Event type of keys and buttons.
pub const EV_KEY: u16 = 0x01;

/// Event type of relative axes.
pub const EV_REL: u16 = 0x02;

/// The horizontal wheel.
pub const REL_HWHEEL: u16 = 0x06;

/// The vertical wheel.
pub const REL_WHEEL: u16 = 0x08;

// Letters
pub const KEY_A: u16 = 30;

pub const KEY_B: u16 = 48;

pub const KEY_C: u16 = 46;

pub const KEY_D: u16 = 32;

pub const KEY_E: u16 = 18;

pub const KEY_F: u16 = 33;

pub const KEY_G: u16 = 34;

pub const KEY_H: u16 = 35;

pub const KEY_I: u16 = 23;

pub const KEY_J: u16 = 36;

pub const KEY_K: u16 = 37;

pub const KEY_L: u16 = 38;

pub const KEY_M: u16 = 50;

pub const KEY_N: u16 = 49;

pub const KEY_O: u16 = 24;

pub const KEY_P: u16 = 25;

pub const KEY_Q: u16 = 16;

pub const KEY_R: u16 = 19;

pub const KEY_S: u16 = 31;

pub const KEY_T: u16 = 20;

pub const KEY_U: u16 = 22;

pub const KEY_V: u16 = 47;

pub const KEY_W: u16 = 17;

pub const KEY_X: u16 = 45;

pub const KEY_Y: u16 = 21;

pub const KEY_Z: u16 = 44;

// Digits
pub const KEY_0: u16 = 11;

pub const KEY_1: u16 = 2;

pub const KEY_2: u16 = 3;

pub const KEY_3: u16 = 4;

pub const KEY_4: u16 = 5;

pub const KEY_5: u16 = 6;

pub const KEY_6: u16 = 7;

pub const KEY_7: u16 = 8;

pub const KEY_8: u16 = 9;

pub const KEY_9: u16 = 10;

// Punctuation
pub const KEY_MINUS: u16 = 12;

pub const KEY_EQUAL: u16 = 13;

pub const KEY_LEFTBRACE: u16 = 26;

pub const KEY_RIGHTBRACE: u16 = 27;

pub const KEY_BACKSLASH: u16 = 43;

pub const KEY_SEMICOLON: u16 = 39;

pub const KEY_APOSTROPHE: u16 = 40;

pub const KEY_GRAVE: u16 = 41;

pub const KEY_COMMA: u16 = 51;

pub const KEY_DOT: u16 = 52;

pub const KEY_SLASH: u16 = 53;

// Navigation and editing
pub const KEY_LEFT: u16 = 105;

pub const KEY_RIGHT: u16 = 106;

pub const KEY_UP: u16 = 103;

pub const KEY_DOWN: u16 = 108;

pub const KEY_HOME: u16 = 102;

pub const KEY_END: u16 = 107;

pub const KEY_PAGEUP: u16 = 104;

pub const KEY_PAGEDOWN: u16 = 109;

pub const KEY_TAB: u16 = 15;

pub const KEY_ENTER: u16 = 28;

pub const KEY_BACKSPACE: u16 = 14;

pub const KEY_DELETE: u16 = 111;

pub const KEY_ESC: u16 = 1;

pub const KEY_SPACE: u16 = 57;

// Modifiers
pub const KEY_LEFTCTRL: u16 = 29;

pub const KEY_LEFTSHIFT: u16 = 42;

pub const KEY_LEFTALT: u16 = 56;

pub const KEY_LEFTMETA: u16 = 125;

// Function keys
pub const KEY_F1: u16 = 59;

pub const KEY_F2: u16 = 60;

pub const KEY_F3: u16 = 61;

pub const KEY_F4: u16 = 62;

pub const KEY_F5: u16 = 63;

pub const KEY_F6: u16 = 64;

pub const KEY_F7: u16 = 65;

pub const KEY_F8: u16 = 66;

pub const KEY_F9: u16 = 67;

pub const KEY_F10: u16 = 68;

pub const KEY_F11: u16 = 87;

pub const KEY_F12: u16 = 88;

// System
pub const KEY_SYSRQ: u16 = 99;

// Multimedia
pub const KEY_PLAYPAUSE: u16 = 164;

pub const KEY_NEXTSONG: u16 = 163;

pub const KEY_PREVIOUSSONG: u16 = 165;

pub const KEY_VOLUMEUP: u16 = 115;

pub const KEY_VOLUMEDOWN: u16 = 114;

pub const KEY_MUTE: u16 = 113;

// Mouse buttons
pub const BTN_LEFT: u16 = 0x110;

pub const BTN_RIGHT: u16 = 0x111;

pub const BTN_MIDDLE: u16 = 0x112;

pub const BTN_SIDE: u16 = 0x113;

pub const BTN_EXTRA: u16 = 0x114;

/// Every key and button that the injector may press. The kernel drops events of
/// a code that was not registered, so the virtual device registers all of these.
pub const KEY_CAPABILITIES: [u16; 89] = [
    // Letters
    KEY_A,
    KEY_B,
    KEY_C,
    KEY_D,
    KEY_E,
    KEY_F,
    KEY_G,
    KEY_H,
    KEY_I,
    KEY_J,
    KEY_K,
    KEY_L,
    KEY_M,
    KEY_N,
    KEY_O,
    KEY_P,
    KEY_Q,
    KEY_R,
    KEY_S,
    KEY_T,
    KEY_U,
    KEY_V,
    KEY_W,
    KEY_X,
    KEY_Y,
    KEY_Z,
    // Digits
    KEY_0,
    KEY_1,
    KEY_2,
    KEY_3,
    KEY_4,
    KEY_5,
    KEY_6,
    KEY_7,
    KEY_8,
    KEY_9,
    // Punctuation
    KEY_MINUS,
    KEY_EQUAL,
    KEY_LEFTBRACE,
    KEY_RIGHTBRACE,
    KEY_BACKSLASH,
    KEY_SEMICOLON,
    KEY_APOSTROPHE,
    KEY_GRAVE,
    KEY_COMMA,
    KEY_DOT,
    KEY_SLASH,
    // Navigation and editing
    KEY_LEFT,
    KEY_RIGHT,
    KEY_UP,
    KEY_DOWN,
    KEY_HOME,
    KEY_END,
    KEY_PAGEUP,
    KEY_PAGEDOWN,
    KEY_TAB,
    KEY_ENTER,
    KEY_BACKSPACE,
    KEY_DELETE,
    KEY_ESC,
    KEY_SPACE,
    // Modifiers
    KEY_LEFTCTRL,
    KEY_LEFTSHIFT,
    KEY_LEFTALT,
    KEY_LEFTMETA,
    // Function keys
    KEY_F1,
    KEY_F2,
    KEY_F3,
    KEY_F4,
    KEY_F5,
    KEY_F6,
    KEY_F7,
    KEY_F8,
    KEY_F9,
    KEY_F10,
    KEY_F11,
    KEY_F12,
    // System
    KEY_SYSRQ,
    // Multimedia
    KEY_PLAYPAUSE,
    KEY_NEXTSONG,
    KEY_PREVIOUSSONG,
    KEY_VOLUMEUP,
    KEY_VOLUMEDOWN,
    KEY_MUTE,
    // Mouse buttons
    BTN_LEFT,
    BTN_RIGHT,
    BTN_MIDDLE,
    BTN_SIDE,
    BTN_EXTRA,
];

/// Whether the virtual device registers a code.
pub open spec fn registered(code: u16) -> bool {
    KEY_CAPABILITIES@.contains(code)
}

/// Every named code is registered.
pub proof fn lemma_registered()
    ensures
        registered(KEY_A),
        registered(KEY_B),
        registered(KEY_C),
        registered(KEY_D),
        registered(KEY_E),
        registered(KEY_F),
        registered(KEY_G),
        registered(KEY_H),
        registered(KEY_I),
        registered(KEY_J),
        registered(KEY_K),
        registered(KEY_L),
        registered(KEY_M),
        registered(KEY_N),
        registered(KEY_O),
        registered(KEY_P),
        registered(KEY_Q),
        registered(KEY_R),
        registered(KEY_S),
        registered(KEY_T),
        registered(KEY_U),
        registered(KEY_V),
        registered(KEY_W),
        registered(KEY_X),
        registered(KEY_Y),
        registered(KEY_Z),
        registered(KEY_0),
        registered(KEY_1),
        registered(KEY_2),
        registered(KEY_3),
        registered(KEY_4),
        registered(KEY_5),
        registered(KEY_6),
        registered(KEY_7),
        registered(KEY_8),
        registered(KEY_9),
        registered(KEY_MINUS),
        registered(KEY_EQUAL),
        registered(KEY_LEFTBRACE),
        registered(KEY_RIGHTBRACE),
        registered(KEY_BACKSLASH),
        registered(KEY_SEMICOLON),
        registered(KEY_APOSTROPHE),
        registered(KEY_GRAVE),
        registered(KEY_COMMA),
        registered(KEY_DOT),
        registered(KEY_SLASH),
        registered(KEY_LEFT),
        registered(KEY_RIGHT),
        registered(KEY_UP),
        registered(KEY_DOWN),
        registered(KEY_HOME),
        registered(KEY_END),
        registered(KEY_PAGEUP),
        registered(KEY_PAGEDOWN),
        registered(KEY_TAB),
        registered(KEY_ENTER),
        registered(KEY_BACKSPACE),
        registered(KEY_DELETE),
        registered(KEY_ESC),
        registered(KEY_SPACE),
        registered(KEY_LEFTCTRL),
        registered(KEY_LEFTSHIFT),
        registered(KEY_LEFTALT),
        registered(KEY_LEFTMETA),
        registered(KEY_F1),
        registered(KEY_F2),
        registered(KEY_F3),
        registered(KEY_F4),
        registered(KEY_F5),
        registered(KEY_F6),
        registered(KEY_F7),
        registered(KEY_F8),
        registered(KEY_F9),
        registered(KEY_F10),
        registered(KEY_F11),
        registered(KEY_F12),
        registered(KEY_SYSRQ),
        registered(KEY_PLAYPAUSE),
        registered(KEY_NEXTSONG),
        registered(KEY_PREVIOUSSONG),
        registered(KEY_VOLUMEUP),
        registered(KEY_VOLUMEDOWN),
        registered(KEY_MUTE),
        registered(BTN_LEFT),
        registered(BTN_RIGHT),
        registered(BTN_MIDDLE),
        registered(BTN_SIDE),
        registered(BTN_EXTRA),
{
    assert(KEY_CAPABILITIES@[0] == KEY_A);
    assert(KEY_CAPABILITIES@[1] == KEY_B);
    assert(KEY_CAPABILITIES@[2] == KEY_C);
    assert(KEY_CAPABILITIES@[3] == KEY_D);
    assert(KEY_CAPABILITIES@[4] == KEY_E);
    assert(KEY_CAPABILITIES@[5] == KEY_F);
    assert(KEY_CAPABILITIES@[6] == KEY_G);
    assert(KEY_CAPABILITIES@[7] == KEY_H);
    assert(KEY_CAPABILITIES@[8] == KEY_I);
    assert(KEY_CAPABILITIES@[9] == KEY_J);
    assert(KEY_CAPABILITIES@[10] == KEY_K);
    assert(KEY_CAPABILITIES@[11] == KEY_L);
    assert(KEY_CAPABILITIES@[12] == KEY_M);
    assert(KEY_CAPABILITIES@[13] == KEY_N);
    assert(KEY_CAPABILITIES@[14] == KEY_O);
    assert(KEY_CAPABILITIES@[15] == KEY_P);
    assert(KEY_CAPABILITIES@[16] == KEY_Q);
    assert(KEY_CAPABILITIES@[17] == KEY_R);
    assert(KEY_CAPABILITIES@[18] == KEY_S);
    assert(KEY_CAPABILITIES@[19] == KEY_T);
    assert(KEY_CAPABILITIES@[20] == KEY_U);
    assert(KEY_CAPABILITIES@[21] == KEY_V);
    assert(KEY_CAPABILITIES@[22] == KEY_W);
    assert(KEY_CAPABILITIES@[23] == KEY_X);
    assert(KEY_CAPABILITIES@[24] == KEY_Y);
    assert(KEY_CAPABILITIES@[25] == KEY_Z);
    assert(KEY_CAPABILITIES@[26] == KEY_0);
    assert(KEY_CAPABILITIES@[27] == KEY_1);
    assert(KEY_CAPABILITIES@[28] == KEY_2);
    assert(KEY_CAPABILITIES@[29] == KEY_3);
    assert(KEY_CAPABILITIES@[30] == KEY_4);
    assert(KEY_CAPABILITIES@[31] == KEY_5);
    assert(KEY_CAPABILITIES@[32] == KEY_6);
    assert(KEY_CAPABILITIES@[33] == KEY_7);
    assert(KEY_CAPABILITIES@[34] == KEY_8);
    assert(KEY_CAPABILITIES@[35] == KEY_9);
    assert(KEY_CAPABILITIES@[36] == KEY_MINUS);
    assert(KEY_CAPABILITIES@[37] == KEY_EQUAL);
    assert(KEY_CAPABILITIES@[38] == KEY_LEFTBRACE);
    assert(KEY_CAPABILITIES@[39] == KEY_RIGHTBRACE);
    assert(KEY_CAPABILITIES@[40] == KEY_BACKSLASH);
    assert(KEY_CAPABILITIES@[41] == KEY_SEMICOLON);
    assert(KEY_CAPABILITIES@[42] == KEY_APOSTROPHE);
    assert(KEY_CAPABILITIES@[43] == KEY_GRAVE);
    assert(KEY_CAPABILITIES@[44] == KEY_COMMA);
    assert(KEY_CAPABILITIES@[45] == KEY_DOT);
    assert(KEY_CAPABILITIES@[46] == KEY_SLASH);
    assert(KEY_CAPABILITIES@[47] == KEY_LEFT);
    assert(KEY_CAPABILITIES@[48] == KEY_RIGHT);
    assert(KEY_CAPABILITIES@[49] == KEY_UP);
    assert(KEY_CAPABILITIES@[50] == KEY_DOWN);
    assert(KEY_CAPABILITIES@[51] == KEY_HOME);
    assert(KEY_CAPABILITIES@[52] == KEY_END);
    assert(KEY_CAPABILITIES@[53] == KEY_PAGEUP);
    assert(KEY_CAPABILITIES@[54] == KEY_PAGEDOWN);
    assert(KEY_CAPABILITIES@[55] == KEY_TAB);
    assert(KEY_CAPABILITIES@[56] == KEY_ENTER);
    assert(KEY_CAPABILITIES@[57] == KEY_BACKSPACE);
    assert(KEY_CAPABILITIES@[58] == KEY_DELETE);
    assert(KEY_CAPABILITIES@[59] == KEY_ESC);
    assert(KEY_CAPABILITIES@[60] == KEY_SPACE);
    assert(KEY_CAPABILITIES@[61] == KEY_LEFTCTRL);
    assert(KEY_CAPABILITIES@[62] == KEY_LEFTSHIFT);
    assert(KEY_CAPABILITIES@[63] == KEY_LEFTALT);
    assert(KEY_CAPABILITIES@[64] == KEY_LEFTMETA);
    assert(KEY_CAPABILITIES@[65] == KEY_F1);
    assert(KEY_CAPABILITIES@[66] == KEY_F2);
    assert(KEY_CAPABILITIES@[67] == KEY_F3);
    assert(KEY_CAPABILITIES@[68] == KEY_F4);
    assert(KEY_CAPABILITIES@[69] == KEY_F5);
    assert(KEY_CAPABILITIES@[70] == KEY_F6);
    assert(KEY_CAPABILITIES@[71] == KEY_F7);
    assert(KEY_CAPABILITIES@[72] == KEY_F8);
    assert(KEY_CAPABILITIES@[73] == KEY_F9);
    assert(KEY_CAPABILITIES@[74] == KEY_F10);
    assert(KEY_CAPABILITIES@[75] == KEY_F11);
    assert(KEY_CAPABILITIES@[76] == KEY_F12);
    assert(KEY_CAPABILITIES@[77] == KEY_SYSRQ);
    assert(KEY_CAPABILITIES@[78] == KEY_PLAYPAUSE);
    assert(KEY_CAPABILITIES@[79] == KEY_NEXTSONG);
    assert(KEY_CAPABILITIES@[80] == KEY_PREVIOUSSONG);
    assert(KEY_CAPABILITIES@[81] == KEY_VOLUMEUP);
    assert(KEY_CAPABILITIES@[82] == KEY_VOLUMEDOWN);
    assert(KEY_CAPABILITIES@[83] == KEY_MUTE);
    assert(KEY_CAPABILITIES@[84] == BTN_LEFT);
    assert(KEY_CAPABILITIES@[85] == BTN_RIGHT);
    assert(KEY_CAPABILITIES@[86] == BTN_MIDDLE);
    assert(KEY_CAPABILITIES@[87] == BTN_SIDE);
    assert(KEY_CAPABILITIES@[88] == BTN_EXTRA);
}

/// The codes of the kernel's `input-event-codes.h`.
pub proof fn law_codes()
    ensures
        EV_SYN == 0x00,
        EV_KEY == 0x01,
        EV_REL == 0x02,
        REL_HWHEEL == 0x06,
        REL_WHEEL == 0x08,
        KEY_A == 30,
        KEY_B == 48,
        KEY_C == 46,
        KEY_D == 32,
        KEY_E == 18,
        KEY_F == 33,
        KEY_G == 34,
        KEY_H == 35,
        KEY_I == 23,
        KEY_J == 36,
        KEY_K == 37,
        KEY_L == 38,
        KEY_M == 50,
        KEY_N == 49,
        KEY_O == 24,
        KEY_P == 25,
        KEY_Q == 16,
        KEY_R == 19,
        KEY_S == 31,
        KEY_T == 20,
        KEY_U == 22,
        KEY_V == 47,
        KEY_W == 17,
        KEY_X == 45,
        KEY_Y == 21,
        KEY_Z == 44,
        KEY_0 == 11,
        KEY_1 == 2,
        KEY_2 == 3,
        KEY_3 == 4,
        KEY_4 == 5,
        KEY_5 == 6,
        KEY_6 == 7,
        KEY_7 == 8,
        KEY_8 == 9,
        KEY_9 == 10,
        KEY_MINUS == 12,
        KEY_EQUAL == 13,
        KEY_LEFTBRACE == 26,
        KEY_RIGHTBRACE == 27,
        KEY_BACKSLASH == 43,
        KEY_SEMICOLON == 39,
        KEY_APOSTROPHE == 40,
        KEY_GRAVE == 41,
        KEY_COMMA == 51,
        KEY_DOT == 52,
        KEY_SLASH == 53,
        KEY_LEFT == 105,
        KEY_RIGHT == 106,
        KEY_UP == 103,
        KEY_DOWN == 108,
        KEY_HOME == 102,
        KEY_END == 107,
        KEY_PAGEUP == 104,
        KEY_PAGEDOWN == 109,
        KEY_TAB == 15,
        KEY_ENTER == 28,
        KEY_BACKSPACE == 14,
        KEY_DELETE == 111,
        KEY_ESC == 1,
        KEY_SPACE == 57,
        KEY_LEFTCTRL == 29,
        KEY_LEFTSHIFT == 42,
        KEY_LEFTALT == 56,
        KEY_LEFTMETA == 125,
        KEY_F1 == 59,
        KEY_F2 == 60,
        KEY_F3 == 61,
        KEY_F4 == 62,
        KEY_F5 == 63,
        KEY_F6 == 64,
        KEY_F7 == 65,
        KEY_F8 == 66,
        KEY_F9 == 67,
        KEY_F10 == 68,
        KEY_F11 == 87,
        KEY_F12 == 88,
        KEY_SYSRQ == 99,
        KEY_PLAYPAUSE == 164,
        KEY_NEXTSONG == 163,
        KEY_PREVIOUSSONG == 165,
        KEY_VOLUMEUP == 115,
        KEY_VOLUMEDOWN == 114,
        KEY_MUTE == 113,
        BTN_LEFT == 0x110,
        BTN_RIGHT == 0x111,
        BTN_MIDDLE == 0x112,
        BTN_SIDE == 0x113,
        BTN_EXTRA == 0x114,
{
}

} // verus!
