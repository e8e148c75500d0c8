//! Key chords: a set of modifiers and one key, as typed by the user and as
//! shown to them.
use vstd::prelude::*;
use vstd::string::StringExecFns;
use crate::text::{
    is_trim, lemma_tokens_join, lemma_tokens_one, lower, lowered, numeral, push_chars, push_numeral,
    spelled, spells, to_chars, to_lowered, to_tokens, to_upper, tokens, upper, white_space,
};

verus! {

/// A modifier + virtual-key keystroke, recorded or written down by hand.
///
/// `modifiers` is a bitmask of [`KeyCombo::MOD_CMD`] etc. `key_code` is the
/// macOS virtual key (`kVK_*`); on the other platforms [`crate::inject`] maps it
/// to a key of theirs. `display` is only for showing the chord, for instance
/// `"⌘⇧P"`.
#[derive(Debug, PartialEq, Eq, Hash)]
pub struct KeyCombo {
    /// Bitmask of [`Self::MOD_CMD`] etc.
    pub modifiers: u8,
    /// macOS virtual key code. 0 means "no key" to the injector.
    pub key_code: u16,
    /// The chord as text. Where it is empty a label is made from the rest.
    pub display: String,
}

/// What a [`KeyCombo`] stands for.
#[verifier::ext_equal]
pub struct ChordView {
    pub modifiers: u8,
    pub key_code: u16,
    pub display: Seq<char>,
}

impl View for KeyCombo {
    type V = ChordView;

    open spec fn view(&self) -> ChordView {
        ChordView {
            modifiers: self.modifiers,
            key_code: self.key_code,
            display: self.display@,
        }
    }
}

impl Clone for KeyCombo {
    fn clone(&self) -> (r: Self)
        ensures
            r == *self,
    {
        KeyCombo {
            modifiers: self.modifiers,
            key_code: self.key_code,
            display: self.display.clone(),
        }
    }
}

// ---------------------------------------------------------------------------
// Names of modifiers and keys
// ---------------------------------------------------------------------------

/// The modifier that a lower-case name stands for.
pub open spec fn named_modifier(name: Seq<char>) -> Option<u8> {
    if name == "ctrl"@ || name == "control"@ || name == "ctl"@ {
        Some(KeyCombo::MOD_CTRL)
    } else if name == "alt"@ || name == "option"@ || name == "opt"@ {
        Some(KeyCombo::MOD_OPTION)
    } else if name == "shift"@ || name == "shft"@ {
        Some(KeyCombo::MOD_SHIFT)
    } else if name == "cmd"@ || name == "command"@ || name == "win"@ || name == "windows"@ || name
        == "super"@ || name == "meta"@ || name == "gui"@ {
        Some(KeyCombo::MOD_CMD)
    } else {
        None
    }
}

/// The modifier that a token names, in any case.
pub open spec fn modifier_of(token: Seq<char>) -> Option<u8> {
    named_modifier(lowered(token))
}

/// The macOS key code that a lower-case key name stands for.
pub open spec fn named_key(name: Seq<char>) -> Option<u16> {
    if name == "tab"@ {
        Some(0x30)
    } else if name == "space"@ || name == "spc"@ {
        Some(0x31)
    } else if name == "enter"@ || name == "return"@ || name == "ret"@ {
        Some(0x24)
    } else if name == "esc"@ || name == "escape"@ {
        Some(0x35)
    } else if name == "backspace"@ || name == "bksp"@ {
        Some(0x33)
    } else if name == "delete"@ || name == "del"@ {
        Some(0x75)
    } else if name == "left"@ || name == "leftarrow"@ {
        Some(0x7B)
    } else if name == "right"@ || name == "rightarrow"@ {
        Some(0x7C)
    } else if name == "down"@ || name == "downarrow"@ {
        Some(0x7D)
    } else if name == "up"@ || name == "uparrow"@ {
        Some(0x7E)
    } else if name == "home"@ {
        Some(0x73)
    } else if name == "end"@ {
        Some(0x77)
    } else if name == "pageup"@ || name == "pgup"@ {
        Some(0x74)
    } else if name == "pagedown"@ || name == "pgdn"@ || name == "pgdown"@ {
        Some(0x79)
    } else if name == "f1"@ {
        Some(0x7A)
    } else if name == "f2"@ {
        Some(0x78)
    } else if name == "f3"@ {
        Some(0x63)
    } else if name == "f4"@ {
        Some(0x76)
    } else if name == "f5"@ {
        Some(0x60)
    } else if name == "f6"@ {
        Some(0x61)
    } else if name == "f7"@ {
        Some(0x62)
    } else if name == "f8"@ {
        Some(0x64)
    } else if name == "f9"@ {
        Some(0x65)
    } else if name == "f10"@ {
        Some(0x6D)
    } else if name == "f11"@ {
        Some(0x67)
    } else if name == "f12"@ {
        Some(0x6F)
    } else if name == "-"@ || name == "minus"@ || name == "hyphen"@ {
        Some(0x1B)
    } else if name == "="@ || name == "equals"@ || name == "equal"@ || name == "plus"@ {
        Some(0x18)
    } else if name == "["@ {
        Some(0x21)
    } else if name == "]"@ {
        Some(0x1E)
    } else if name == "\\"@ || name == "backslash"@ {
        Some(0x2A)
    } else if name == ";"@ || name == "semicolon"@ {
        Some(0x29)
    } else if name == "'"@ || name == "quote"@ || name == "apostrophe"@ {
        Some(0x27)
    } else if name == ","@ || name == "comma"@ {
        Some(0x2B)
    } else if name == "."@ || name == "period"@ || name == "dot"@ {
        Some(0x2F)
    } else if name == "/"@ || name == "slash"@ {
        Some(0x2C)
    } else if name == "`"@ || name == "grave"@ || name == "backtick"@ {
        Some(0x32)
    } else {
        None
    }
}

/// The macOS key code of a letter or digit, in upper case.
pub open spec fn char_key(c: char) -> Option<u16> {
    match c {
        'A' => Some(0x00),
        'S' => Some(0x01),
        'D' => Some(0x02),
        'F' => Some(0x03),
        'H' => Some(0x04),
        'G' => Some(0x05),
        'Z' => Some(0x06),
        'X' => Some(0x07),
        'C' => Some(0x08),
        'V' => Some(0x09),
        'B' => Some(0x0B),
        'Q' => Some(0x0C),
        'W' => Some(0x0D),
        'E' => Some(0x0E),
        'R' => Some(0x0F),
        'Y' => Some(0x10),
        'T' => Some(0x11),
        '1' => Some(0x12),
        '2' => Some(0x13),
        '3' => Some(0x14),
        '4' => Some(0x15),
        '6' => Some(0x16),
        '5' => Some(0x17),
        '9' => Some(0x19),
        '7' => Some(0x1A),
        '8' => Some(0x1C),
        '0' => Some(0x1D),
        'O' => Some(0x1F),
        'U' => Some(0x20),
        'I' => Some(0x22),
        'P' => Some(0x23),
        'L' => Some(0x25),
        'J' => Some(0x26),
        'K' => Some(0x28),
        'N' => Some(0x2D),
        'M' => Some(0x2E),
        _ => None,
    }
}

/// The macOS key code that a token names: a key's name in any case, or a
/// letter or digit.
pub open spec fn key_code_of(token: Seq<char>) -> Option<u16> {
    match named_key(lowered(token)) {
        Some(code) => Some(code),
        None => if token.len() == 1 {
            char_key(upper(token[0]))
        } else {
            None
        },
    }
}

fn parse_modifier_token(token: &Vec<char>) -> (r: Option<u8>)
    ensures
        r == modifier_of(token@),
{
    let name = to_lowered(token);
    if spells(&name, "ctrl") || spells(&name, "control") || spells(&name, "ctl") {
        Some(KeyCombo::MOD_CTRL)
    } else if spells(&name, "alt") || spells(&name, "option") || spells(&name, "opt") {
        Some(KeyCombo::MOD_OPTION)
    } else if spells(&name, "shift") || spells(&name, "shft") {
        Some(KeyCombo::MOD_SHIFT)
    } else if spells(&name, "cmd") || spells(&name, "command") || spells(&name, "win") || spells(
        &name,
        "windows",
    ) || spells(&name, "super") || spells(&name, "meta") || spells(&name, "gui") {
        Some(KeyCombo::MOD_CMD)
    } else {
        None
    }
}

fn parse_key_name(name: &Vec<char>) -> (r: Option<u16>)
    ensures
        r == named_key(name@),
{
    if spells(&name, "tab") {
        Some(0x30)
    } else if spells(&name, "space") || spells(&name, "spc") {
        Some(0x31)
    } else if spells(&name, "enter") || spells(&name, "return") || spells(&name, "ret") {
        Some(0x24)
    } else if spells(&name, "esc") || spells(&name, "escape") {
        Some(0x35)
    } else if spells(&name, "backspace") || spells(&name, "bksp") {
        Some(0x33)
    } else if spells(&name, "delete") || spells(&name, "del") {
        Some(0x75)
    } else if spells(&name, "left") || spells(&name, "leftarrow") {
        Some(0x7B)
    } else if spells(&name, "right") || spells(&name, "rightarrow") {
        Some(0x7C)
    } else if spells(&name, "down") || spells(&name, "downarrow") {
        Some(0x7D)
    } else if spells(&name, "up") || spells(&name, "uparrow") {
        Some(0x7E)
    } else if spells(&name, "home") {
        Some(0x73)
    } else if spells(&name, "end") {
        Some(0x77)
    } else if spells(&name, "pageup") || spells(&name, "pgup") {
        Some(0x74)
    } else if spells(&name, "pagedown") || spells(&name, "pgdn") || spells(&name, "pgdown") {
        Some(0x79)
    } else if spells(&name, "f1") {
        Some(0x7A)
    } else if spells(&name, "f2") {
        Some(0x78)
    } else if spells(&name, "f3") {
        Some(0x63)
    } else if spells(&name, "f4") {
        Some(0x76)
    } else if spells(&name, "f5") {
        Some(0x60)
    } else if spells(&name, "f6") {
        Some(0x61)
    } else if spells(&name, "f7") {
        Some(0x62)
    } else if spells(&name, "f8") {
        Some(0x64)
    } else if spells(&name, "f9") {
        Some(0x65)
    } else if spells(&name, "f10") {
        Some(0x6D)
    } else if spells(&name, "f11") {
        Some(0x67)
    } else if spells(&name, "f12") {
        Some(0x6F)
    } else if spells(&name, "-") || spells(&name, "minus") || spells(&name, "hyphen") {
        Some(0x1B)
    } else if spells(&name, "=") || spells(&name, "equals") || spells(&name, "equal") || spells(
        &name,
        "plus",
    ) {
        Some(0x18)
    } else if spells(&name, "[") {
        Some(0x21)
    } else if spells(&name, "]") {
        Some(0x1E)
    } else if spells(&name, "\\") || spells(&name, "backslash") {
        Some(0x2A)
    } else if spells(&name, ";") || spells(&name, "semicolon") {
        Some(0x29)
    } else if spells(&name, "'") || spells(&name, "quote") || spells(&name, "apostrophe") {
        Some(0x27)
    } else if spells(&name, ",") || spells(&name, "comma") {
        Some(0x2B)
    } else if spells(&name, ".") || spells(&name, "period") || spells(&name, "dot") {
        Some(0x2F)
    } else if spells(&name, "/") || spells(&name, "slash") {
        Some(0x2C)
    } else if spells(&name, "`") || spells(&name, "grave") || spells(&name, "backtick") {
        Some(0x32)
    } else {
        None
    }
}

/// Map a typed key name to a macOS `kVK_*` code.
fn parse_key_token(token: &Vec<char>) -> (r: Option<u16>)
    ensures
        r == key_code_of(token@),
{
    let name = to_lowered(token);
    let named = parse_key_name(&name);
    if named.is_some() {
        return named;
    }
    if token.len() == 1 {
        return match to_upper(token[0]) {
        'A' => Some(0x00),
        'S' => Some(0x01),
        'D' => Some(0x02),
        'F' => Some(0x03),
        'H' => Some(0x04),
        'G' => Some(0x05),
        'Z' => Some(0x06),
        'X' => Some(0x07),
        'C' => Some(0x08),
        'V' => Some(0x09),
        'B' => Some(0x0B),
        'Q' => Some(0x0C),
        'W' => Some(0x0D),
        'E' => Some(0x0E),
        'R' => Some(0x0F),
        'Y' => Some(0x10),
        'T' => Some(0x11),
        '1' => Some(0x12),
        '2' => Some(0x13),
        '3' => Some(0x14),
        '4' => Some(0x15),
        '6' => Some(0x16),
        '5' => Some(0x17),
        '9' => Some(0x19),
        '7' => Some(0x1A),
        '8' => Some(0x1C),
        '0' => Some(0x1D),
        'O' => Some(0x1F),
        'U' => Some(0x20),
        'I' => Some(0x22),
        'P' => Some(0x23),
        'L' => Some(0x25),
        'J' => Some(0x26),
        'K' => Some(0x28),
        'N' => Some(0x2D),
        'M' => Some(0x2E),
            _ => None,
        };
    }
    None
}

// ---------------------------------------------------------------------------
// Typed chords
// ---------------------------------------------------------------------------

/// How many tokens, from the first on, name a modifier without a break.
pub open spec fn modifier_run(t: Seq<Seq<char>>) -> nat
    decreases t.len(),
{
    if t.len() == 0 || modifier_of(t[0]) is None {
        0
    } else {
        1 + modifier_run(t.skip(1))
    }
}

/// The modifiers that tokens name, taken together.
pub open spec fn modifier_mask(t: Seq<Seq<char>>) -> u8
    decreases t.len(),
{
    if t.len() == 0 {
        0
    } else {
        modifier_mask(t.drop_last()) | modifier_of(t.last()).unwrap_or(0)
    }
}

/// `text` where `mask` has the bit `bit`, else nothing.
pub open spec fn where_set(mask: u8, bit: u8, text: Seq<char>) -> Seq<char> {
    if mask & bit != 0 {
        text
    } else {
        Seq::empty()
    }
}

/// A key token as it is shown: with a capital.
pub open spec fn key_label(token: Seq<char>) -> Seq<char> {
    token.update(0, upper(token[0]))
}

/// A chord as it is shown: the modifiers in the order Ctrl, Alt, Shift, Win,
/// then the key, with `+` in between.
pub open spec fn typed_display(modifiers: u8, token: Seq<char>) -> Seq<char> {
    where_set(modifiers, KeyCombo::MOD_CTRL, "Ctrl+"@) + where_set(
        modifiers,
        KeyCombo::MOD_OPTION,
        "Alt+"@,
    ) + where_set(modifiers, KeyCombo::MOD_SHIFT, "Shift+"@) + where_set(
        modifiers,
        KeyCombo::MOD_CMD,
        "Win+"@,
    ) + key_label(token)
}

/// What typing `input` comes to: the chord, or the message for the user.
///
/// The tokens of the input are its parts between `+` signs, without the white
/// space around them; empty parts do not count. All but the last have to be
/// modifiers, and the last has to be a key.
pub open spec fn parsed(input: Seq<char>) -> Result<ChordView, Seq<char>> {
    let t = tokens(input, '+');
    let n = modifier_run(t) as int;
    if t.len() == 0 {
        Err("Type a shortcut, e.g. Alt+Tab"@)
    } else if n == t.len() {
        Err("Add a key after the modifiers, e.g. Alt+Tab"@)
    } else if n < t.len() - 1 {
        Err("Unknown modifier '"@ + t[n] + "'"@)
    } else {
        match key_code_of(t[n]) {
            None => Err("Unknown key '"@ + t[n] + "'"@),
            Some(key_code) => {
                let modifiers = modifier_mask(t.take(n));
                Ok(ChordView { modifiers, key_code, display: typed_display(modifiers, t[n]) })
            },
        }
    }
}

proof fn lemma_run_step(t: Seq<Seq<char>>, i: int)
    requires
        0 <= i <= t.len(),
        forall|j: int| 0 <= j < i ==> modifier_of(#[trigger] t[j]) is Some,
    ensures
        modifier_run(t) == i + modifier_run(t.skip(i)),
    decreases i,
{
    if i > 0 {
        let rest = t.skip(1);
        assert forall|j: int| 0 <= j < i - 1 implies modifier_of(#[trigger] rest[j]) is Some by {
            assert(rest[j] == t[j + 1]);
        }
        lemma_run_step(rest, i - 1);
        assert(rest.skip(i - 1) =~= t.skip(i));
        assert(modifier_of(t[0]) is Some);
    } else {
        assert(t.skip(0) =~= t);
    }
}

/// `opening` + `token` + `'`.
fn quoted(opening: &str, token: &Vec<char>) -> (r: String)
    ensures
        r@ == opening@ + token@ + "'"@,
{
    let mut out = opening.to_string();
    push_chars(&mut out, token);
    out.append("'");
    out
}

fn format_typed_display(modifiers: u8, token: &Vec<char>) -> (r: String)
    requires
        token@.len() > 0,
    ensures
        r@ == typed_display(modifiers, token@),
{
    let mut out = String::new();
    if modifiers & KeyCombo::MOD_CTRL != 0 {
        out.append("Ctrl+");
    }
    if modifiers & KeyCombo::MOD_OPTION != 0 {
        out.append("Alt+");
    }
    if modifiers & KeyCombo::MOD_SHIFT != 0 {
        out.append("Shift+");
    }
    if modifiers & KeyCombo::MOD_CMD != 0 {
        out.append("Win+");
    }
    let mut label: Vec<char> = token.clone();
    assert(label@ =~= token@);
    label.set(0, to_upper(token[0]));
    push_chars(&mut out, &label);
    assert(out@ =~= typed_display(modifiers, token@));
    out
}

impl KeyCombo {
    pub const MOD_CMD: u8 = 1;

    pub const MOD_SHIFT: u8 = 2;

    pub const MOD_CTRL: u8 = 4;

    pub const MOD_OPTION: u8 = 8;

    /// Parse a typed chord like `"Alt+Tab"`, `"Ctrl+Shift+C"`, or `"Win+D"`.
    ///
    /// Tokens are split on `+` (and optional spaces). Modifier names are
    /// case-insensitive (`ctrl`/`control`, `alt`/`option`, `shift`,
    /// `cmd`/`command`/`win`/`super`/`meta`). The final non-modifier token is
    /// the key (`A`–`Z`, `0`–`9`, `Tab`, `Space`, `Enter`, `Esc`, arrows, `F1`–
    /// `F12`, and common punctuation).
    ///
    /// On success, [`Self::display`] is set to a cleaned `Mod+Key` label.
    pub fn parse_typed(input: &str) -> (r: Result<Self, String>)
        ensures
            match r {
                Ok(combo) => parsed(input@) == Ok::<ChordView, Seq<char>>(combo@),
                Err(message) => parsed(input@) == Err::<ChordView, Seq<char>>(message@),
            },
    {
        let parts = to_tokens(&to_chars(input), '+');
        let ghost t = tokens(input@, '+');
        assert(t.len() == parts@.len());
        if parts.len() == 0 {
            return Err("Type a shortcut, e.g. Alt+Tab".to_string());
        }
        let mut modifiers: u8 = 0;
        let mut i: usize = 0;
        while i < parts.len()
            invariant
                i <= parts.len(),
                parts.len() > 0,
                t == tokens(input@, '+'),
                t == spelled(parts@),
                forall|j: int| 0 <= j < i ==> modifier_of(#[trigger] t[j]) is Some,
                modifiers == modifier_mask(t.take(i as int)),
            decreases parts.len() - i,
        {
            let part = &parts[i];
            assert(t[i as int] == part@);
            proof {
                lemma_run_step(t, i as int);
                assert(t.skip(i as int)[0] == t[i as int]);
            }
            match parse_modifier_token(part) {
                Some(bit) => {
                    modifiers = modifiers | bit;
                    assert(t.take(i + 1).drop_last() =~= t.take(i as int));
                    i = i + 1;
                },
                None => {
                    if i != parts.len() - 1 {
                        return Err(quoted("Unknown modifier '", part));
                    }
                    return match parse_key_token(part) {
                        None => Err(quoted("Unknown key '", part)),
                        Some(key_code) => {
                            assert(part@.len() > 0) by {
                                crate::text::lemma_tokens(input@, '+', i as int);
                            }
                            let display = format_typed_display(modifiers, part);
                            Ok(KeyCombo { modifiers, key_code, display })
                        },
                    };
                },
            }
        }
        proof {
            lemma_run_step(t, i as int);
        }
        Err("Add a key after the modifiers, e.g. Alt+Tab".to_string())
    }

    /// The name that a key is shown with where the chord has no text of its
    /// own.
    pub open spec fn key_name(key_code: u16) -> Seq<char> {
        match key_code {
            0x00 => "A"@,
            0x01 => "S"@,
            0x02 => "D"@,
            0x03 => "F"@,
            0x06 => "Z"@,
            0x07 => "X"@,
            0x08 => "C"@,
            0x09 => "V"@,
            0x0B => "B"@,
            0x0C => "Q"@,
            0x0D => "W"@,
            0x0E => "E"@,
            0x0F => "R"@,
            0x10 => "Y"@,
            0x11 => "T"@,
            0x20 => "U"@,
            0x22 => "I"@,
            0x1F => "O"@,
            0x23 => "P"@,
            0x30 => "Tab"@,
            0x31 => "Space"@,
            0x24 => "Enter"@,
            0x35 => "Esc"@,
            _ => "key 0x"@ + numeral(key_code as nat, 16, 2),
        }
    }

    /// The label of the chord: its own text, or its modifiers and key.
    pub open spec fn label_text(self) -> Seq<char> {
        if self.display@.len() > 0 {
            self.display@
        } else {
            where_set(self.modifiers, KeyCombo::MOD_CTRL, "⌃"@) + where_set(
                self.modifiers,
                KeyCombo::MOD_OPTION,
                "⌥"@,
            ) + where_set(self.modifiers, KeyCombo::MOD_SHIFT, "⇧"@) + where_set(
                self.modifiers,
                KeyCombo::MOD_CMD,
                "⌘"@,
            ) + Self::key_name(self.key_code)
        }
    }

    /// Human-readable label: the chord's own text, else one made from the
    /// modifiers and the key, with the key as `key 0xNN` where it is not one of
    /// the commonly recognised ones.
    #[must_use]
    pub fn rendered_label(&self) -> (r: String)
        ensures
            r@ == self.label_text(),
    {
        if !self.display.as_str().is_empty() {
            return self.display.clone();
        }
        let mut out = String::new();
        if self.modifiers & Self::MOD_CTRL != 0 {
            out.append("⌃");
        }
        if self.modifiers & Self::MOD_OPTION != 0 {
            out.append("⌥");
        }
        if self.modifiers & Self::MOD_SHIFT != 0 {
            out.append("⇧");
        }
        if self.modifiers & Self::MOD_CMD != 0 {
            out.append("⌘");
        }
        match self.key_code {
            0x00 => out.append("A"),
            0x01 => out.append("S"),
            0x02 => out.append("D"),
            0x03 => out.append("F"),
            0x06 => out.append("Z"),
            0x07 => out.append("X"),
            0x08 => out.append("C"),
            0x09 => out.append("V"),
            0x0B => out.append("B"),
            0x0C => out.append("Q"),
            0x0D => out.append("W"),
            0x0E => out.append("E"),
            0x0F => out.append("R"),
            0x10 => out.append("Y"),
            0x11 => out.append("T"),
            0x20 => out.append("U"),
            0x22 => out.append("I"),
            0x1F => out.append("O"),
            0x23 => out.append("P"),
            0x30 => out.append("Tab"),
            0x31 => out.append("Space"),
            0x24 => out.append("Enter"),
            0x35 => out.append("Esc"),
            _ => {
                out.append("key 0x");
                push_numeral(&mut out, self.key_code, 16, 2);
            },
        }
        assert(out@ =~= self.label_text());
        out
    }
}

// ---------------------------------------------------------------------------
// What holds of typed chords
// ---------------------------------------------------------------------------

proof fn lemma_case(c: char)
    ensures
        lower(upper(c)) == lower(c),
        upper(upper(c)) == upper(c),
        upper(lower(c)) == upper(c),
        white_space(upper(c)) == white_space(c),
        upper(c) == '+' <==> c == '+',
{
}

/// A key token reads the same with a capital.
proof fn lemma_capital(token: Seq<char>)
    requires
        token.len() > 0,
    ensures
        modifier_of(key_label(token)) == modifier_of(token),
        key_code_of(key_label(token)) == key_code_of(token),
        key_label(key_label(token)) == key_label(token),
        is_trim(key_label(token)) == is_trim(token),
        key_label(token).contains('+') == token.contains('+'),
{
    let k = key_label(token);
    lemma_case(token[0]);
    assert(lowered(k) =~= lowered(token));
    assert(key_label(k) =~= k);
    if token.len() > 1 {
        assert(k.last() == token.last());
    }
    if k.contains('+') {
        let j = choose|j: int| 0 <= j < k.len() && k[j] == '+';
        assert(token[j] == '+');
    }
    if token.contains('+') {
        let j = choose|j: int| 0 <= j < token.len() && token[j] == '+';
        assert(k[j] == '+');
    }
}

proof fn lemma_mask_bits(t: Seq<Seq<char>>)
    ensures
        modifier_mask(t) <= 15,
    decreases t.len(),
{
    if t.len() > 0 {
        lemma_mask_bits(t.drop_last());
        let a = modifier_mask(t.drop_last());
        let b = modifier_of(t.last()).unwrap_or(0);
        assert(a <= 15 && b <= 15 ==> (a | b) <= 15) by (bit_vector);
    }
}

/// The names of the modifiers in `mask`, as they are shown.
spec fn shown_modifiers(mask: u8) -> Seq<Seq<char>> {
    shown(mask, KeyCombo::MOD_CTRL, "Ctrl"@) + shown(mask, KeyCombo::MOD_OPTION, "Alt"@) + shown(
        mask,
        KeyCombo::MOD_SHIFT,
        "Shift"@,
    ) + shown(mask, KeyCombo::MOD_CMD, "Win"@)
}

spec fn shown(mask: u8, bit: u8, name: Seq<char>) -> Seq<Seq<char>> {
    if mask & bit != 0 {
        seq![name]
    } else {
        Seq::empty()
    }
}

proof fn lemma_shown_name(mask: u8, bit: u8, name: Seq<char>, sign: Seq<char>, rest: Seq<char>)
    requires
        name.len() > 0,
        is_trim(name),
        !name.contains('+'),
        sign == name.push('+'),
    ensures
        tokens(where_set(mask, bit, sign) + rest, '+') == shown(mask, bit, name) + tokens(
            rest,
            '+',
        ),
{
    if mask & bit != 0 {
        lemma_tokens_join(name, rest, '+');
    } else {
        assert(where_set(mask, bit, sign) + rest =~= rest);
        assert(shown(mask, bit, name) + tokens(rest, '+') =~= tokens(rest, '+'));
    }
}

proof fn lemma_shown_literals()
    ensures
        "Ctrl+"@ == "Ctrl"@.push('+'),
        "Alt+"@ == "Alt"@.push('+'),
        "Shift+"@ == "Shift"@.push('+'),
        "Win+"@ == "Win"@.push('+'),
        is_trim("Ctrl"@) && is_trim("Alt"@) && is_trim("Shift"@) && is_trim("Win"@),
        "Ctrl"@.len() > 0 && "Alt"@.len() > 0 && "Shift"@.len() > 0 && "Win"@.len() > 0,
        !"Ctrl"@.contains('+') && !"Alt"@.contains('+') && !"Shift"@.contains('+')
            && !"Win"@.contains('+'),
        modifier_of("Ctrl"@) == Some(KeyCombo::MOD_CTRL),
        modifier_of("Alt"@) == Some(KeyCombo::MOD_OPTION),
        modifier_of("Shift"@) == Some(KeyCombo::MOD_SHIFT),
        modifier_of("Win"@) == Some(KeyCombo::MOD_CMD),
{
    reveal_strlit("Ctrl+");
    reveal_strlit("Alt+");
    reveal_strlit("Shift+");
    reveal_strlit("Win+");
    reveal_strlit("Ctrl");
    reveal_strlit("Alt");
    reveal_strlit("Shift");
    reveal_strlit("Win");
    reveal_strlit("ctrl");
    reveal_strlit("control");
    reveal_strlit("ctl");
    reveal_strlit("alt");
    reveal_strlit("option");
    reveal_strlit("opt");
    reveal_strlit("shift");
    reveal_strlit("shft");
    reveal_strlit("win");
    assert("Ctrl+"@ =~= "Ctrl"@.push('+'));
    assert("Alt+"@ =~= "Alt"@.push('+'));
    assert("Shift+"@ =~= "Shift"@.push('+'));
    assert("Win+"@ =~= "Win"@.push('+'));
    assert(lowered("Ctrl"@) =~= "ctrl"@);
    assert(lowered("Alt"@) =~= "alt"@);
    assert(lowered("Shift"@) =~= "shift"@);
    assert(lowered("Win"@) =~= "win"@);
    assert("alt"@.len() == 3 && "alt"@[0] == 'a');
    assert("ctl"@[0] == 'c');
    assert("shift"@[1] == 'h' && "shift"@[0] == 's');
    assert("win"@[0] == 'w' && "opt"@[0] == 'o');
}

/// The tokens of a shown chord are its modifiers' names and its key.
proof fn lemma_display_tokens(mask: u8, token: Seq<char>)
    requires
        token.len() > 0,
        is_trim(token),
        !token.contains('+'),
    ensures
        tokens(typed_display(mask, token), '+') == shown_modifiers(mask).push(key_label(token)),
{
    let key = key_label(token);
    lemma_capital(token);
    lemma_tokens_one(key, '+');
    lemma_shown_literals();
    let w = where_set(mask, KeyCombo::MOD_CMD, "Win+"@);
    let s = where_set(mask, KeyCombo::MOD_SHIFT, "Shift+"@);
    let a = where_set(mask, KeyCombo::MOD_OPTION, "Alt+"@);
    let c = where_set(mask, KeyCombo::MOD_CTRL, "Ctrl+"@);
    let (x0, x1, x2, x3) = (
        shown(mask, KeyCombo::MOD_CMD, "Win"@),
        shown(mask, KeyCombo::MOD_SHIFT, "Shift"@),
        shown(mask, KeyCombo::MOD_OPTION, "Alt"@),
        shown(mask, KeyCombo::MOD_CTRL, "Ctrl"@),
    );
    lemma_shown_name(mask, KeyCombo::MOD_CMD, "Win"@, "Win+"@, key);
    lemma_shown_name(mask, KeyCombo::MOD_SHIFT, "Shift"@, "Shift+"@, w + key);
    lemma_shown_name(mask, KeyCombo::MOD_OPTION, "Alt"@, "Alt+"@, s + (w + key));
    lemma_shown_name(mask, KeyCombo::MOD_CTRL, "Ctrl"@, "Ctrl+"@, a + (s + (w + key)));
    lemma_regroup(c, a, s, w, key);
    lemma_regroup(x3, x2, x1, x0, seq![key]);
    assert(shown_modifiers(mask).push(key) =~= x3 + x2 + x1 + x0 + seq![key]);
}

proof fn lemma_regroup<A>(a: Seq<A>, b: Seq<A>, c: Seq<A>, d: Seq<A>, e: Seq<A>)
    ensures
        a + b + c + d + e == a + (b + (c + (d + e))),
{
    assert(a + b + c + d + e =~= a + (b + (c + (d + e))));
}

proof fn lemma_mask_add(t: Seq<Seq<char>>, u: Seq<Seq<char>>)
    ensures
        modifier_mask(t + u) == modifier_mask(t) | modifier_mask(u),
    decreases u.len(),
{
    if u.len() == 0 {
        assert(t + u =~= t);
        let a = modifier_mask(t);
        assert(a | 0 == a) by (bit_vector);
    } else {
        lemma_mask_add(t, u.drop_last());
        assert((t + u).drop_last() =~= t + u.drop_last());
        let a = modifier_mask(t);
        let b = modifier_mask(u.drop_last());
        let c = modifier_of(u.last()).unwrap_or(0);
        assert((a | b) | c == a | (b | c)) by (bit_vector);
    }
}

proof fn lemma_mask_shown(mask: u8, bit: u8, name: Seq<char>)
    requires
        modifier_of(name) == Some(bit),
        bit == 1 || bit == 2 || bit == 4 || bit == 8,
    ensures
        modifier_mask(shown(mask, bit, name)) == mask & bit,
{
    let t = shown(mask, bit, name);
    if mask & bit != 0 {
        assert(t.drop_last() =~= Seq::empty());
        assert(t.last() == name);
        assert(modifier_mask(t.drop_last()) == 0);
        assert(0u8 | bit == bit) by (bit_vector);
        assert(mask & bit != 0 && (bit == 1 || bit == 2 || bit == 4 || bit == 8) ==> mask & bit
            == bit) by (bit_vector);
    }
}

/// What [`KeyCombo::parse_typed`] shows for a chord is itself a way to type that
/// chord: parsing the display text of a parsed chord gives the same chord.
pub proof fn law_display_is_typable(input: Seq<char>)
    ensures
        parsed(input) matches Ok(chord) ==> parsed(chord.display) == Ok::<ChordView, Seq<char>>(
            chord,
        ),
{
    if let Ok(chord) = parsed(input) {
        let t = tokens(input, '+');
        let n = modifier_run(t) as int;
        let token = t[n];
        let mask = chord.modifiers;
        lemma_run_ends(t);
        crate::text::lemma_tokens(input, '+', n);
        lemma_display_tokens(mask, token);
        lemma_capital(token);
        lemma_mask_bits(t.take(n));
        lemma_shown_literals();

        let u = shown_modifiers(mask).push(key_label(token));
        let m = shown_modifiers(mask).len() as int;
        assert forall|j: int| 0 <= j < m implies modifier_of(#[trigger] u[j]) is Some by {
            assert(u[j] == "Ctrl"@ || u[j] == "Alt"@ || u[j] == "Shift"@ || u[j] == "Win"@);
        }
        lemma_run_step(u, m);
        assert(u.skip(m)[0] == key_label(token));
        assert(modifier_run(u) == m);
        assert(u.take(m) =~= shown_modifiers(mask));

        let (c, o, s, w) = (
            shown(mask, KeyCombo::MOD_CTRL, "Ctrl"@),
            shown(mask, KeyCombo::MOD_OPTION, "Alt"@),
            shown(mask, KeyCombo::MOD_SHIFT, "Shift"@),
            shown(mask, KeyCombo::MOD_CMD, "Win"@),
        );
        lemma_mask_add(c + o + s, w);
        lemma_mask_add(c + o, s);
        lemma_mask_add(c, o);
        lemma_mask_shown(mask, KeyCombo::MOD_CTRL, "Ctrl"@);
        lemma_mask_shown(mask, KeyCombo::MOD_OPTION, "Alt"@);
        lemma_mask_shown(mask, KeyCombo::MOD_SHIFT, "Shift"@);
        lemma_mask_shown(mask, KeyCombo::MOD_CMD, "Win"@);
        assert(mask <= 15 ==> ((mask & 4 | mask & 8) | mask & 2) | mask & 1 == mask)
            by (bit_vector);
        assert(modifier_mask(u.take(m)) == mask);
    }
}

/// A run of modifiers ends before a token that is none.
proof fn lemma_run_ends(t: Seq<Seq<char>>)
    ensures
        modifier_run(t) <= t.len(),
        modifier_run(t) < t.len() ==> modifier_of(t[modifier_run(t) as int]) is None,
    decreases t.len(),
{
    if t.len() > 0 && modifier_of(t[0]) is Some {
        lemma_run_ends(t.skip(1));
    }
}

/// A parsed chord is labelled with its display text.
pub proof fn law_parsed_label(input: Seq<char>, combo: KeyCombo)
    requires
        parsed(input) == Ok::<ChordView, Seq<char>>(combo@),
    ensures
        combo.label_text() == combo.display@,
        combo.display@.len() > 0,
{
    let t = tokens(input, '+');
    lemma_run_ends(t);
    crate::text::lemma_tokens(input, '+', modifier_run(t) as int);
}

/// The keys that can be typed, by the names that they are usually written with:
/// letters, digits, function keys, editing and navigation keys, and punctuation.
pub open spec fn typable_keys() -> Seq<Seq<char>> {
    seq![
        "A"@,
        "B"@,
        "C"@,
        "D"@,
        "E"@,
        "F"@,
        "G"@,
        "H"@,
        "I"@,
        "J"@,
        "K"@,
        "L"@,
        "M"@,
        "N"@,
        "O"@,
        "P"@,
        "Q"@,
        "R"@,
        "S"@,
        "T"@,
        "U"@,
        "V"@,
        "W"@,
        "X"@,
        "Y"@,
        "Z"@,
        "0"@,
        "1"@,
        "2"@,
        "3"@,
        "4"@,
        "5"@,
        "6"@,
        "7"@,
        "8"@,
        "9"@,
        "F1"@,
        "F2"@,
        "F3"@,
        "F4"@,
        "F5"@,
        "F6"@,
        "F7"@,
        "F8"@,
        "F9"@,
        "F10"@,
        "F11"@,
        "F12"@,
        "Tab"@,
        "Space"@,
        "Enter"@,
        "Esc"@,
        "Backspace"@,
        "Delete"@,
        "Left"@,
        "Right"@,
        "Up"@,
        "Down"@,
        "Home"@,
        "End"@,
        "PageUp"@,
        "PageDown"@,
        "-"@,
        "="@,
        "["@,
        "]"@,
        "\\"@,
        ";"@,
        "'"@,
        ","@,
        "."@,
        "/"@,
        "`"@,
    ]
}

/// The place of a code among those of the [`typable_keys`].
spec fn typable_place(code: u16) -> int {
    match code {
        0x00 => 0,
        0x0B => 1,
        0x08 => 2,
        0x02 => 3,
        0x0E => 4,
        0x03 => 5,
        0x05 => 6,
        0x04 => 7,
        0x22 => 8,
        0x26 => 9,
        0x28 => 10,
        0x25 => 11,
        0x2E => 12,
        0x2D => 13,
        0x1F => 14,
        0x23 => 15,
        0x0C => 16,
        0x0F => 17,
        0x01 => 18,
        0x11 => 19,
        0x20 => 20,
        0x09 => 21,
        0x0D => 22,
        0x07 => 23,
        0x10 => 24,
        0x06 => 25,
        0x1D => 26,
        0x12 => 27,
        0x13 => 28,
        0x14 => 29,
        0x15 => 30,
        0x17 => 31,
        0x16 => 32,
        0x1A => 33,
        0x1C => 34,
        0x19 => 35,
        0x7A => 36,
        0x78 => 37,
        0x63 => 38,
        0x76 => 39,
        0x60 => 40,
        0x61 => 41,
        0x62 => 42,
        0x64 => 43,
        0x65 => 44,
        0x6D => 45,
        0x67 => 46,
        0x6F => 47,
        0x30 => 48,
        0x31 => 49,
        0x24 => 50,
        0x35 => 51,
        0x33 => 52,
        0x75 => 53,
        0x7B => 54,
        0x7C => 55,
        0x7E => 56,
        0x7D => 57,
        0x73 => 58,
        0x77 => 59,
        0x74 => 60,
        0x79 => 61,
        0x1B => 62,
        0x18 => 63,
        0x21 => 64,
        0x1E => 65,
        0x2A => 66,
        0x29 => 67,
        0x27 => 68,
        0x2B => 69,
        0x2F => 70,
        0x2C => 71,
        0x32 => 72,
        _ => -1,
    }
}

/// The names that [`named_key`] knows, as characters.
proof fn lemma_key_literals()
    ensures
        named_key("f1"@) == Some(0x7Au16),
        named_key("f2"@) == Some(0x78u16),
        named_key("f3"@) == Some(0x63u16),
        named_key("f4"@) == Some(0x76u16),
        named_key("f5"@) == Some(0x60u16),
        named_key("f6"@) == Some(0x61u16),
        named_key("f7"@) == Some(0x62u16),
        named_key("f8"@) == Some(0x64u16),
        named_key("f9"@) == Some(0x65u16),
        named_key("f10"@) == Some(0x6Du16),
        named_key("f11"@) == Some(0x67u16),
        named_key("f12"@) == Some(0x6Fu16),
        named_key("tab"@) == Some(0x30u16),
        named_key("space"@) == Some(0x31u16),
        named_key("enter"@) == Some(0x24u16),
        named_key("esc"@) == Some(0x35u16),
        named_key("backspace"@) == Some(0x33u16),
        named_key("delete"@) == Some(0x75u16),
        named_key("left"@) == Some(0x7Bu16),
        named_key("right"@) == Some(0x7Cu16),
        named_key("up"@) == Some(0x7Eu16),
        named_key("down"@) == Some(0x7Du16),
        named_key("home"@) == Some(0x73u16),
        named_key("end"@) == Some(0x77u16),
        named_key("pageup"@) == Some(0x74u16),
        named_key("pagedown"@) == Some(0x79u16),
        named_key("-"@) == Some(0x1Bu16),
        named_key("="@) == Some(0x18u16),
        named_key("["@) == Some(0x21u16),
        named_key("]"@) == Some(0x1Eu16),
        named_key("\\"@) == Some(0x2Au16),
        named_key(";"@) == Some(0x29u16),
        named_key("'"@) == Some(0x27u16),
        named_key(","@) == Some(0x2Bu16),
        named_key("."@) == Some(0x2Fu16),
        named_key("/"@) == Some(0x2Cu16),
        named_key("`"@) == Some(0x32u16),
        forall|name: Seq<char>|
            name.len() == 1 && ('a' <= name[0] <= 'z' || '0' <= name[0] <= '9')
                ==> #[trigger] named_key(name) is None,
        named_key("spc"@) == Some(0x31u16),
        named_key("return"@) == Some(0x24u16),
        named_key("ret"@) == Some(0x24u16),
        named_key("escape"@) == Some(0x35u16),
        named_key("bksp"@) == Some(0x33u16),
        named_key("del"@) == Some(0x75u16),
        named_key("leftarrow"@) == Some(0x7Bu16),
        named_key("rightarrow"@) == Some(0x7Cu16),
        named_key("downarrow"@) == Some(0x7Du16),
        named_key("uparrow"@) == Some(0x7Eu16),
        named_key("pgup"@) == Some(0x74u16),
        named_key("pgdn"@) == Some(0x79u16),
        named_key("pgdown"@) == Some(0x79u16),
        named_key("minus"@) == Some(0x1Bu16),
        named_key("hyphen"@) == Some(0x1Bu16),
        named_key("equals"@) == Some(0x18u16),
        named_key("equal"@) == Some(0x18u16),
        named_key("plus"@) == Some(0x18u16),
        named_key("backslash"@) == Some(0x2Au16),
        named_key("semicolon"@) == Some(0x29u16),
        named_key("quote"@) == Some(0x27u16),
        named_key("apostrophe"@) == Some(0x27u16),
        named_key("comma"@) == Some(0x2Bu16),
        named_key("period"@) == Some(0x2Fu16),
        named_key("dot"@) == Some(0x2Fu16),
        named_key("slash"@) == Some(0x2Cu16),
        named_key("grave"@) == Some(0x32u16),
        named_key("backtick"@) == Some(0x32u16),
{
    reveal_strlit("tab");
    reveal_strlit("space");
    reveal_strlit("spc");
    reveal_strlit("enter");
    reveal_strlit("return");
    reveal_strlit("ret");
    reveal_strlit("esc");
    reveal_strlit("escape");
    reveal_strlit("backspace");
    reveal_strlit("bksp");
    reveal_strlit("delete");
    reveal_strlit("del");
    reveal_strlit("left");
    reveal_strlit("leftarrow");
    reveal_strlit("right");
    reveal_strlit("rightarrow");
    reveal_strlit("down");
    reveal_strlit("downarrow");
    reveal_strlit("up");
    reveal_strlit("uparrow");
    reveal_strlit("home");
    reveal_strlit("end");
    reveal_strlit("pageup");
    reveal_strlit("pgup");
    reveal_strlit("pagedown");
    reveal_strlit("pgdn");
    reveal_strlit("pgdown");
    reveal_strlit("f1");
    reveal_strlit("f2");
    reveal_strlit("f3");
    reveal_strlit("f4");
    reveal_strlit("f5");
    reveal_strlit("f6");
    reveal_strlit("f7");
    reveal_strlit("f8");
    reveal_strlit("f9");
    reveal_strlit("f10");
    reveal_strlit("f11");
    reveal_strlit("f12");
    reveal_strlit("-");
    reveal_strlit("minus");
    reveal_strlit("hyphen");
    reveal_strlit("=");
    reveal_strlit("equals");
    reveal_strlit("equal");
    reveal_strlit("plus");
    reveal_strlit("[");
    reveal_strlit("]");
    reveal_strlit("\\");
    reveal_strlit("backslash");
    reveal_strlit(";");
    reveal_strlit("semicolon");
    reveal_strlit("'");
    reveal_strlit("quote");
    reveal_strlit("apostrophe");
    reveal_strlit(",");
    reveal_strlit("comma");
    reveal_strlit(".");
    reveal_strlit("period");
    reveal_strlit("dot");
    reveal_strlit("/");
    reveal_strlit("slash");
    reveal_strlit("`");
    reveal_strlit("grave");
    reveal_strlit("backtick");
    assert("tab"@.len() == 3);
    assert("space"@.len() == 5);
    assert("spc"@.len() == 3);
    assert("enter"@.len() == 5);
    assert("return"@.len() == 6);
    assert("ret"@.len() == 3);
    assert("esc"@.len() == 3);
    assert("escape"@.len() == 6);
    assert("backspace"@.len() == 9);
    assert("bksp"@.len() == 4);
    assert("delete"@.len() == 6);
    assert("del"@.len() == 3);
    assert("left"@.len() == 4);
    assert("leftarrow"@.len() == 9);
    assert("right"@.len() == 5);
    assert("rightarrow"@.len() == 10);
    assert("down"@.len() == 4);
    assert("downarrow"@.len() == 9);
    assert("up"@.len() == 2);
    assert("uparrow"@.len() == 7);
    assert("home"@.len() == 4);
    assert("end"@.len() == 3);
    assert("pageup"@.len() == 6);
    assert("pgup"@.len() == 4);
    assert("pagedown"@.len() == 8);
    assert("pgdn"@.len() == 4);
    assert("pgdown"@.len() == 6);
    assert("f1"@.len() == 2);
    assert("f2"@.len() == 2);
    assert("f3"@.len() == 2);
    assert("f4"@.len() == 2);
    assert("f5"@.len() == 2);
    assert("f6"@.len() == 2);
    assert("f7"@.len() == 2);
    assert("f8"@.len() == 2);
    assert("f9"@.len() == 2);
    assert("f10"@.len() == 3);
    assert("f11"@.len() == 3);
    assert("f12"@.len() == 3);
    assert("-"@.len() == 1);
    assert("minus"@.len() == 5);
    assert("hyphen"@.len() == 6);
    assert("="@.len() == 1);
    assert("equals"@.len() == 6);
    assert("equal"@.len() == 5);
    assert("plus"@.len() == 4);
    assert("["@.len() == 1);
    assert("]"@.len() == 1);
    assert("\\"@.len() == 1);
    assert("backslash"@.len() == 9);
    assert(";"@.len() == 1);
    assert("semicolon"@.len() == 9);
    assert("'"@.len() == 1);
    assert("quote"@.len() == 5);
    assert("apostrophe"@.len() == 10);
    assert(","@.len() == 1);
    assert("comma"@.len() == 5);
    assert("."@.len() == 1);
    assert("period"@.len() == 6);
    assert("dot"@.len() == 3);
    assert("/"@.len() == 1);
    assert("slash"@.len() == 5);
    assert("`"@.len() == 1);
    assert("grave"@.len() == 5);
    assert("backtick"@.len() == 8);
    assert("-"@[0] == '-');
    assert("="@[0] == '=');
    assert("["@[0] == '[');
    assert("]"@[0] == ']');
    assert("\\"@[0] == '\\');
    assert(";"@[0] == ';');
    assert("'"@[0] == '\'');
    assert(","@[0] == ',');
    assert("."@[0] == '.');
    assert("/"@[0] == '/');
    assert("`"@[0] == '`');
    assert("up"@[0] == 'u');
    assert("up"@[1] == 'p');
    assert("f1"@[0] == 'f');
    assert("f1"@[1] == '1');
    assert("f2"@[0] == 'f');
    assert("f2"@[1] == '2');
    assert("f3"@[0] == 'f');
    assert("f3"@[1] == '3');
    assert("f4"@[0] == 'f');
    assert("f4"@[1] == '4');
    assert("f5"@[0] == 'f');
    assert("f5"@[1] == '5');
    assert("f6"@[0] == 'f');
    assert("f6"@[1] == '6');
    assert("f7"@[0] == 'f');
    assert("f7"@[1] == '7');
    assert("f8"@[0] == 'f');
    assert("f8"@[1] == '8');
    assert("f9"@[0] == 'f');
    assert("f9"@[1] == '9');
    assert("tab"@[0] == 't');
    assert("tab"@[1] == 'a');
    assert("tab"@[2] == 'b');
    assert("spc"@[0] == 's');
    assert("spc"@[1] == 'p');
    assert("spc"@[2] == 'c');
    assert("ret"@[0] == 'r');
    assert("ret"@[1] == 'e');
    assert("ret"@[2] == 't');
    assert("esc"@[0] == 'e');
    assert("esc"@[1] == 's');
    assert("esc"@[2] == 'c');
    assert("del"@[0] == 'd');
    assert("del"@[1] == 'e');
    assert("del"@[2] == 'l');
    assert("end"@[0] == 'e');
    assert("end"@[1] == 'n');
    assert("end"@[2] == 'd');
    assert("f10"@[0] == 'f');
    assert("f10"@[1] == '1');
    assert("f10"@[2] == '0');
    assert("f11"@[0] == 'f');
    assert("f11"@[1] == '1');
    assert("f11"@[2] == '1');
    assert("f12"@[0] == 'f');
    assert("f12"@[1] == '1');
    assert("f12"@[2] == '2');
    assert("dot"@[0] == 'd');
    assert("dot"@[1] == 'o');
    assert("dot"@[2] == 't');
    assert("bksp"@[0] == 'b');
    assert("bksp"@[1] == 'k');
    assert("bksp"@[2] == 's');
    assert("left"@[0] == 'l');
    assert("left"@[1] == 'e');
    assert("left"@[2] == 'f');
    assert("down"@[0] == 'd');
    assert("down"@[1] == 'o');
    assert("down"@[2] == 'w');
    assert("home"@[0] == 'h');
    assert("home"@[1] == 'o');
    assert("home"@[2] == 'm');
    assert("pgup"@[0] == 'p');
    assert("pgup"@[1] == 'g');
    assert("pgup"@[2] == 'u');
    assert("pgdn"@[0] == 'p');
    assert("pgdn"@[1] == 'g');
    assert("pgdn"@[2] == 'd');
    assert("plus"@[0] == 'p');
    assert("plus"@[1] == 'l');
    assert("plus"@[2] == 'u');
    assert("space"@[0] == 's');
    assert("space"@[1] == 'p');
    assert("enter"@[0] == 'e');
    assert("enter"@[1] == 'n');
    assert("right"@[0] == 'r');
    assert("right"@[1] == 'i');
    assert("minus"@[0] == 'm');
    assert("minus"@[1] == 'i');
    assert("equal"@[0] == 'e');
    assert("equal"@[1] == 'q');
    assert("quote"@[0] == 'q');
    assert("quote"@[1] == 'u');
    assert("comma"@[0] == 'c');
    assert("comma"@[1] == 'o');
    assert("slash"@[0] == 's');
    assert("slash"@[1] == 'l');
    assert("grave"@[0] == 'g');
    assert("grave"@[1] == 'r');
    assert("return"@[0] == 'r');
    assert("return"@[1] == 'e');
    assert("escape"@[0] == 'e');
    assert("escape"@[1] == 's');
    assert("delete"@[0] == 'd');
    assert("delete"@[1] == 'e');
    assert("pageup"@[0] == 'p');
    assert("pageup"@[1] == 'a');
    assert("pgdown"@[0] == 'p');
    assert("pgdown"@[1] == 'g');
    assert("hyphen"@[0] == 'h');
    assert("hyphen"@[1] == 'y');
    assert("equals"@[0] == 'e');
    assert("equals"@[1] == 'q');
    assert("period"@[0] == 'p');
    assert("period"@[1] == 'e');
    assert("pagedown"@[0] == 'p');
    assert("backtick"@[0] == 'b');
    assert("backspace"@[0] == 'b');
    assert("backspace"@[5] == 'p');
    assert("leftarrow"@[0] == 'l');
    assert("leftarrow"@[5] == 'r');
    assert("downarrow"@[0] == 'd');
    assert("downarrow"@[5] == 'r');
    assert("backslash"@[0] == 'b');
    assert("backslash"@[5] == 'l');
    assert("semicolon"@[0] == 's');
    assert("semicolon"@[5] == 'o');
    assert("rightarrow"@[0] == 'r');
    assert("apostrophe"@[0] == 'a');
}

proof fn lemma_typable_code(i: int)
    requires
        0 <= i < typable_keys().len(),
    ensures
        key_code_of(typable_keys()[i]) matches Some(code) && typable_place(code) == i,
{
    lemma_key_literals();
    reveal_strlit("A");
    reveal_strlit("B");
    reveal_strlit("C");
    reveal_strlit("D");
    reveal_strlit("E");
    reveal_strlit("F");
    reveal_strlit("G");
    reveal_strlit("H");
    reveal_strlit("I");
    reveal_strlit("J");
    reveal_strlit("K");
    reveal_strlit("L");
    reveal_strlit("M");
    reveal_strlit("N");
    reveal_strlit("O");
    reveal_strlit("P");
    reveal_strlit("Q");
    reveal_strlit("R");
    reveal_strlit("S");
    reveal_strlit("T");
    reveal_strlit("U");
    reveal_strlit("V");
    reveal_strlit("W");
    reveal_strlit("X");
    reveal_strlit("Y");
    reveal_strlit("Z");
    reveal_strlit("0");
    reveal_strlit("1");
    reveal_strlit("2");
    reveal_strlit("3");
    reveal_strlit("4");
    reveal_strlit("5");
    reveal_strlit("6");
    reveal_strlit("7");
    reveal_strlit("8");
    reveal_strlit("9");
    reveal_strlit("F1");
    reveal_strlit("F2");
    reveal_strlit("F3");
    reveal_strlit("F4");
    reveal_strlit("F5");
    reveal_strlit("F6");
    reveal_strlit("F7");
    reveal_strlit("F8");
    reveal_strlit("F9");
    reveal_strlit("F10");
    reveal_strlit("F11");
    reveal_strlit("F12");
    reveal_strlit("Tab");
    reveal_strlit("Space");
    reveal_strlit("Enter");
    reveal_strlit("Esc");
    reveal_strlit("Backspace");
    reveal_strlit("Delete");
    reveal_strlit("Left");
    reveal_strlit("Right");
    reveal_strlit("Up");
    reveal_strlit("Down");
    reveal_strlit("Home");
    reveal_strlit("End");
    reveal_strlit("PageUp");
    reveal_strlit("PageDown");
    reveal_strlit("-");
    reveal_strlit("=");
    reveal_strlit("[");
    reveal_strlit("]");
    reveal_strlit("\\");
    reveal_strlit(";");
    reveal_strlit("'");
    reveal_strlit(",");
    reveal_strlit(".");
    reveal_strlit("/");
    reveal_strlit("`");
    reveal_strlit("f1");
    reveal_strlit("f2");
    reveal_strlit("f3");
    reveal_strlit("f4");
    reveal_strlit("f5");
    reveal_strlit("f6");
    reveal_strlit("f7");
    reveal_strlit("f8");
    reveal_strlit("f9");
    reveal_strlit("f10");
    reveal_strlit("f11");
    reveal_strlit("f12");
    reveal_strlit("tab");
    reveal_strlit("space");
    reveal_strlit("enter");
    reveal_strlit("esc");
    reveal_strlit("backspace");
    reveal_strlit("delete");
    reveal_strlit("left");
    reveal_strlit("right");
    reveal_strlit("up");
    reveal_strlit("down");
    reveal_strlit("home");
    reveal_strlit("end");
    reveal_strlit("pageup");
    reveal_strlit("pagedown");
    assert(lowered("F1"@) =~= "f1"@);
    assert(lowered("F2"@) =~= "f2"@);
    assert(lowered("F3"@) =~= "f3"@);
    assert(lowered("F4"@) =~= "f4"@);
    assert(lowered("F5"@) =~= "f5"@);
    assert(lowered("F6"@) =~= "f6"@);
    assert(lowered("F7"@) =~= "f7"@);
    assert(lowered("F8"@) =~= "f8"@);
    assert(lowered("F9"@) =~= "f9"@);
    assert(lowered("F10"@) =~= "f10"@);
    assert(lowered("F11"@) =~= "f11"@);
    assert(lowered("F12"@) =~= "f12"@);
    assert(lowered("Tab"@) =~= "tab"@);
    assert(lowered("Space"@) =~= "space"@);
    assert(lowered("Enter"@) =~= "enter"@);
    assert(lowered("Esc"@) =~= "esc"@);
    assert(lowered("Backspace"@) =~= "backspace"@);
    assert(lowered("Delete"@) =~= "delete"@);
    assert(lowered("Left"@) =~= "left"@);
    assert(lowered("Right"@) =~= "right"@);
    assert(lowered("Up"@) =~= "up"@);
    assert(lowered("Down"@) =~= "down"@);
    assert(lowered("Home"@) =~= "home"@);
    assert(lowered("End"@) =~= "end"@);
    assert(lowered("PageUp"@) =~= "pageup"@);
    assert(lowered("PageDown"@) =~= "pagedown"@);
    assert(lowered("-"@) =~= "-"@);
    assert(lowered("="@) =~= "="@);
    assert(lowered("["@) =~= "["@);
    assert(lowered("]"@) =~= "]"@);
    assert(lowered("\\"@) =~= "\\"@);
    assert(lowered(";"@) =~= ";"@);
    assert(lowered("'"@) =~= "'"@);
    assert(lowered(","@) =~= ","@);
    assert(lowered("."@) =~= "."@);
    assert(lowered("/"@) =~= "/"@);
    assert(lowered("`"@) =~= "`"@);
}

/// A key or a modifier reads the same in any case.
pub proof fn law_tokens_read_the_same_in_any_case(a: Seq<char>, b: Seq<char>)
    requires
        lowered(a) == lowered(b),
    ensures
        key_code_of(a) == key_code_of(b),
        modifier_of(a) == modifier_of(b),
{
    assert(lowered(a).len() == a.len() && lowered(b).len() == b.len());
    if a.len() == 1 {
        assert(lowered(a)[0] == lower(a[0]) && lowered(b)[0] == lower(b[0]));
        lemma_case(a[0]);
        lemma_case(b[0]);
    }
}

/// A token reads the same in capitals.
pub proof fn law_capitals_read_the_same(token: Seq<char>)
    ensures
        key_code_of(token.map_values(|c: char| upper(c))) == key_code_of(token),
        modifier_of(token.map_values(|c: char| upper(c))) == modifier_of(token),
{
    let capitals = token.map_values(|c: char| upper(c));
    assert forall|i: int| 0 <= i < token.len() implies lower(#[trigger] capitals[i]) == lower(
        token[i],
    ) by {
        lemma_case(token[i]);
    }
    assert(lowered(capitals) =~= lowered(token));
    law_tokens_read_the_same_in_any_case(capitals, token);
}

/// Every one of the [`typable_keys`] is a key, and no two of them are the same one.
pub proof fn law_typable_keys_are_distinct(i: int, j: int)
    requires
        0 <= i < typable_keys().len(),
        0 <= j < typable_keys().len(),
    ensures
        key_code_of(typable_keys()[i]) is Some,
        i != j ==> key_code_of(typable_keys()[i]) != key_code_of(typable_keys()[j]),
{
    lemma_typable_code(i);
    lemma_typable_code(j);
}

/// The bits of the modifiers.
pub proof fn law_modifier_bits()
    ensures
        KeyCombo::MOD_CMD == 1,
        KeyCombo::MOD_SHIFT == 2,
        KeyCombo::MOD_CTRL == 4,
        KeyCombo::MOD_OPTION == 8,
{
}

/// A chord shows all that it holds.
pub proof fn law_chord_shows_every_field(combo: KeyCombo)
    ensures
        combo@.modifiers == combo.modifiers,
        combo@.key_code == combo.key_code,
        combo@.display == combo.display@,
{
}

/// The names of the modifiers, in any case. No other token names one.
pub proof fn law_modifier_names(token: Seq<char>)
    ensures
        ({
            let name = lowered(token);
            let bit = modifier_of(token);
            &&& bit == Some(KeyCombo::MOD_CTRL) <==> (name == "ctrl"@ || name == "control"@ || name
                == "ctl"@)
            &&& bit == Some(KeyCombo::MOD_OPTION) <==> (name == "alt"@ || name == "option"@ || name
                == "opt"@)
            &&& bit == Some(KeyCombo::MOD_SHIFT) <==> (name == "shift"@ || name == "shft"@)
            &&& bit == Some(KeyCombo::MOD_CMD) <==> (name == "cmd"@ || name == "command"@ || name
                == "win"@ || name == "windows"@ || name == "super"@ || name == "meta"@ || name
                == "gui"@)
            &&& bit matches Some(b) ==> (b == KeyCombo::MOD_CTRL || b == KeyCombo::MOD_OPTION || b
                == KeyCombo::MOD_SHIFT || b == KeyCombo::MOD_CMD)
        }),
{
    reveal_strlit("ctrl");
    reveal_strlit("control");
    reveal_strlit("ctl");
    reveal_strlit("alt");
    reveal_strlit("option");
    reveal_strlit("opt");
    reveal_strlit("shift");
    reveal_strlit("shft");
    reveal_strlit("cmd");
    reveal_strlit("command");
    reveal_strlit("win");
    reveal_strlit("windows");
    reveal_strlit("super");
    reveal_strlit("meta");
    reveal_strlit("gui");
    assert("ctrl"@.len() == 4 && "ctrl"@[1] == 't' && "ctrl"@[2] == 'r');
    assert("control"@.len() == 7 && "control"@[1] == 'o' && "control"@[2] == 'n');
    assert("ctl"@.len() == 3 && "ctl"@[1] == 't' && "ctl"@[2] == 'l');
    assert("alt"@.len() == 3 && "alt"@[1] == 'l' && "alt"@[2] == 't');
    assert("option"@.len() == 6 && "option"@[1] == 'p' && "option"@[2] == 't');
    assert("opt"@.len() == 3 && "opt"@[1] == 'p' && "opt"@[2] == 't');
    assert("shift"@.len() == 5 && "shift"@[1] == 'h' && "shift"@[2] == 'i');
    assert("shft"@.len() == 4 && "shft"@[1] == 'h' && "shft"@[2] == 'f');
    assert("cmd"@.len() == 3 && "cmd"@[1] == 'm' && "cmd"@[2] == 'd');
    assert("command"@.len() == 7 && "command"@[1] == 'o' && "command"@[2] == 'm');
    assert("win"@.len() == 3 && "win"@[1] == 'i' && "win"@[2] == 'n');
    assert("windows"@.len() == 7 && "windows"@[1] == 'i' && "windows"@[2] == 'n');
    assert("super"@.len() == 5 && "super"@[1] == 'u' && "super"@[2] == 'p');
    assert("meta"@.len() == 4 && "meta"@[1] == 'e' && "meta"@[2] == 't');
    assert("gui"@.len() == 3 && "gui"@[1] == 'u' && "gui"@[2] == 'i');
}

/// The names of the keys, in any case: whitespace and editing keys, navigation, function
/// keys and punctuation, each with its key code.
pub proof fn law_key_names(token: Seq<char>)
    ensures
        ({
            let name = lowered(token);
            let code = key_code_of(token);
            &&& name == "tab"@ ==> code == Some(0x30u16)
            &&& (name == "space"@ || name == "spc"@) ==> code == Some(0x31u16)
            &&& (name == "enter"@ || name == "return"@ || name == "ret"@) ==> code == Some(0x24u16)
            &&& (name == "esc"@ || name == "escape"@) ==> code == Some(0x35u16)
            &&& (name == "backspace"@ || name == "bksp"@) ==> code == Some(0x33u16)
            &&& (name == "delete"@ || name == "del"@) ==> code == Some(0x75u16)
            &&& (name == "left"@ || name == "leftarrow"@) ==> code == Some(0x7Bu16)
            &&& (name == "right"@ || name == "rightarrow"@) ==> code == Some(0x7Cu16)
            &&& (name == "down"@ || name == "downarrow"@) ==> code == Some(0x7Du16)
            &&& (name == "up"@ || name == "uparrow"@) ==> code == Some(0x7Eu16)
            &&& name == "home"@ ==> code == Some(0x73u16)
            &&& name == "end"@ ==> code == Some(0x77u16)
            &&& (name == "pageup"@ || name == "pgup"@) ==> code == Some(0x74u16)
            &&& (name == "pagedown"@ || name == "pgdn"@ || name == "pgdown"@)
                ==> code == Some(0x79u16)
            &&& name == "f1"@ ==> code == Some(0x7Au16)
            &&& name == "f2"@ ==> code == Some(0x78u16)
            &&& name == "f3"@ ==> code == Some(0x63u16)
            &&& name == "f4"@ ==> code == Some(0x76u16)
            &&& name == "f5"@ ==> code == Some(0x60u16)
            &&& name == "f6"@ ==> code == Some(0x61u16)
            &&& name == "f7"@ ==> code == Some(0x62u16)
            &&& name == "f8"@ ==> code == Some(0x64u16)
            &&& name == "f9"@ ==> code == Some(0x65u16)
            &&& name == "f10"@ ==> code == Some(0x6Du16)
            &&& name == "f11"@ ==> code == Some(0x67u16)
            &&& name == "f12"@ ==> code == Some(0x6Fu16)
            &&& (name == "-"@ || name == "minus"@ || name == "hyphen"@) ==> code == Some(0x1Bu16)
            &&& (name == "="@ || name == "equals"@ || name == "equal"@
                || name == "plus"@) ==> code == Some(0x18u16)
            &&& name == "["@ ==> code == Some(0x21u16)
            &&& name == "]"@ ==> code == Some(0x1Eu16)
            &&& (name == "\\"@ || name == "backslash"@) ==> code == Some(0x2Au16)
            &&& (name == ";"@ || name == "semicolon"@) ==> code == Some(0x29u16)
            &&& (name == "'"@ || name == "quote"@ || name == "apostrophe"@)
                ==> code == Some(0x27u16)
            &&& (name == ","@ || name == "comma"@) ==> code == Some(0x2Bu16)
            &&& (name == "."@ || name == "period"@ || name == "dot"@) ==> code == Some(0x2Fu16)
            &&& (name == "/"@ || name == "slash"@) ==> code == Some(0x2Cu16)
            &&& (name == "`"@ || name == "grave"@ || name == "backtick"@) ==> code == Some(0x32u16)
        }),
{
    lemma_key_literals();
}

/// The letters and digits, in either case, each with its key code.
pub proof fn law_character_keys(c: char)
    ensures
        ({
            let code = key_code_of(seq![c]);
            &&& c == 'A' || c == 'a' ==> code == Some(0x00u16)
            &&& c == 'S' || c == 's' ==> code == Some(0x01u16)
            &&& c == 'D' || c == 'd' ==> code == Some(0x02u16)
            &&& c == 'F' || c == 'f' ==> code == Some(0x03u16)
            &&& c == 'H' || c == 'h' ==> code == Some(0x04u16)
            &&& c == 'G' || c == 'g' ==> code == Some(0x05u16)
            &&& c == 'Z' || c == 'z' ==> code == Some(0x06u16)
            &&& c == 'X' || c == 'x' ==> code == Some(0x07u16)
            &&& c == 'C' || c == 'c' ==> code == Some(0x08u16)
            &&& c == 'V' || c == 'v' ==> code == Some(0x09u16)
            &&& c == 'B' || c == 'b' ==> code == Some(0x0Bu16)
            &&& c == 'Q' || c == 'q' ==> code == Some(0x0Cu16)
            &&& c == 'W' || c == 'w' ==> code == Some(0x0Du16)
            &&& c == 'E' || c == 'e' ==> code == Some(0x0Eu16)
            &&& c == 'R' || c == 'r' ==> code == Some(0x0Fu16)
            &&& c == 'Y' || c == 'y' ==> code == Some(0x10u16)
            &&& c == 'T' || c == 't' ==> code == Some(0x11u16)
            &&& c == '1' ==> code == Some(0x12u16)
            &&& c == '2' ==> code == Some(0x13u16)
            &&& c == '3' ==> code == Some(0x14u16)
            &&& c == '4' ==> code == Some(0x15u16)
            &&& c == '6' ==> code == Some(0x16u16)
            &&& c == '5' ==> code == Some(0x17u16)
            &&& c == '9' ==> code == Some(0x19u16)
            &&& c == '7' ==> code == Some(0x1Au16)
            &&& c == '8' ==> code == Some(0x1Cu16)
            &&& c == '0' ==> code == Some(0x1Du16)
            &&& c == 'O' || c == 'o' ==> code == Some(0x1Fu16)
            &&& c == 'U' || c == 'u' ==> code == Some(0x20u16)
            &&& c == 'I' || c == 'i' ==> code == Some(0x22u16)
            &&& c == 'P' || c == 'p' ==> code == Some(0x23u16)
            &&& c == 'L' || c == 'l' ==> code == Some(0x25u16)
            &&& c == 'J' || c == 'j' ==> code == Some(0x26u16)
            &&& c == 'K' || c == 'k' ==> code == Some(0x28u16)
            &&& c == 'N' || c == 'n' ==> code == Some(0x2Du16)
            &&& c == 'M' || c == 'm' ==> code == Some(0x2Eu16)
        }),
{
    let token = seq![c];
    let name = lowered(token);
    assert(name.len() == 1 && name[0] == lower(c));
    lemma_key_literals();
    lemma_long_names();
    reveal_strlit("-");
    assert("-"@[0] == '-');
    reveal_strlit("=");
    assert("="@[0] == '=');
    reveal_strlit("[");
    assert("["@[0] == '[');
    reveal_strlit("]");
    assert("]"@[0] == ']');
    reveal_strlit("\\");
    assert("\\"@[0] == '\\');
    reveal_strlit(";");
    assert(";"@[0] == ';');
    reveal_strlit("'");
    assert("'"@[0] == '\'');
    reveal_strlit(",");
    assert(","@[0] == ',');
    reveal_strlit(".");
    assert("."@[0] == '.');
    reveal_strlit("/");
    assert("/"@[0] == '/');
    reveal_strlit("`");
    assert("`"@[0] == '`');
}

/// Every name of a key that is written with letters has more than one.
proof fn lemma_long_names()
    ensures
        "tab"@.len() > 1,
        "space"@.len() > 1,
        "spc"@.len() > 1,
        "enter"@.len() > 1,
        "return"@.len() > 1,
        "ret"@.len() > 1,
        "esc"@.len() > 1,
        "escape"@.len() > 1,
        "backspace"@.len() > 1,
        "bksp"@.len() > 1,
        "delete"@.len() > 1,
        "del"@.len() > 1,
        "left"@.len() > 1,
        "leftarrow"@.len() > 1,
        "right"@.len() > 1,
        "rightarrow"@.len() > 1,
        "down"@.len() > 1,
        "downarrow"@.len() > 1,
        "up"@.len() > 1,
        "uparrow"@.len() > 1,
        "home"@.len() > 1,
        "end"@.len() > 1,
        "pageup"@.len() > 1,
        "pgup"@.len() > 1,
        "pagedown"@.len() > 1,
        "pgdn"@.len() > 1,
        "pgdown"@.len() > 1,
        "f1"@.len() > 1,
        "f2"@.len() > 1,
        "f3"@.len() > 1,
        "f4"@.len() > 1,
        "f5"@.len() > 1,
        "f6"@.len() > 1,
        "f7"@.len() > 1,
        "f8"@.len() > 1,
        "f9"@.len() > 1,
        "f10"@.len() > 1,
        "f11"@.len() > 1,
        "f12"@.len() > 1,
        "minus"@.len() > 1,
        "hyphen"@.len() > 1,
        "equals"@.len() > 1,
        "equal"@.len() > 1,
        "plus"@.len() > 1,
        "backslash"@.len() > 1,
        "semicolon"@.len() > 1,
        "quote"@.len() > 1,
        "apostrophe"@.len() > 1,
        "comma"@.len() > 1,
        "period"@.len() > 1,
        "dot"@.len() > 1,
        "slash"@.len() > 1,
        "grave"@.len() > 1,
        "backtick"@.len() > 1,
{
    reveal_strlit("tab");
    reveal_strlit("space");
    reveal_strlit("spc");
    reveal_strlit("enter");
    reveal_strlit("return");
    reveal_strlit("ret");
    reveal_strlit("esc");
    reveal_strlit("escape");
    reveal_strlit("backspace");
    reveal_strlit("bksp");
    reveal_strlit("delete");
    reveal_strlit("del");
    reveal_strlit("left");
    reveal_strlit("leftarrow");
    reveal_strlit("right");
    reveal_strlit("rightarrow");
    reveal_strlit("down");
    reveal_strlit("downarrow");
    reveal_strlit("up");
    reveal_strlit("uparrow");
    reveal_strlit("home");
    reveal_strlit("end");
    reveal_strlit("pageup");
    reveal_strlit("pgup");
    reveal_strlit("pagedown");
    reveal_strlit("pgdn");
    reveal_strlit("pgdown");
    reveal_strlit("f1");
    reveal_strlit("f2");
    reveal_strlit("f3");
    reveal_strlit("f4");
    reveal_strlit("f5");
    reveal_strlit("f6");
    reveal_strlit("f7");
    reveal_strlit("f8");
    reveal_strlit("f9");
    reveal_strlit("f10");
    reveal_strlit("f11");
    reveal_strlit("f12");
    reveal_strlit("minus");
    reveal_strlit("hyphen");
    reveal_strlit("equals");
    reveal_strlit("equal");
    reveal_strlit("plus");
    reveal_strlit("backslash");
    reveal_strlit("semicolon");
    reveal_strlit("quote");
    reveal_strlit("apostrophe");
    reveal_strlit("comma");
    reveal_strlit("period");
    reveal_strlit("dot");
    reveal_strlit("slash");
    reveal_strlit("grave");
    reveal_strlit("backtick");
}

/// Nothing else is a key: a token that is neither a letter, a digit nor a name is none.
pub proof fn law_no_other_keys(token: Seq<char>)
    requires
        key_code_of(token) is Some,
    ensures
        ({
            let name = lowered(token);
            ||| token.len() == 1 && ('0' <= token[0] <= '9' || 'A' <= token[0] <= 'Z' || 'a'
                <= token[0] <= 'z')
            ||| name == "tab"@
            ||| name == "space"@ || name == "spc"@
            ||| name == "enter"@ || name == "return"@ || name == "ret"@
            ||| name == "esc"@ || name == "escape"@
            ||| name == "backspace"@ || name == "bksp"@
            ||| name == "delete"@ || name == "del"@
            ||| name == "left"@ || name == "leftarrow"@
            ||| name == "right"@ || name == "rightarrow"@
            ||| name == "down"@ || name == "downarrow"@
            ||| name == "up"@ || name == "uparrow"@
            ||| name == "home"@
            ||| name == "end"@
            ||| name == "pageup"@ || name == "pgup"@
            ||| name == "pagedown"@ || name == "pgdn"@ || name == "pgdown"@
            ||| name == "f1"@
            ||| name == "f2"@
            ||| name == "f3"@
            ||| name == "f4"@
            ||| name == "f5"@
            ||| name == "f6"@
            ||| name == "f7"@
            ||| name == "f8"@
            ||| name == "f9"@
            ||| name == "f10"@
            ||| name == "f11"@
            ||| name == "f12"@
            ||| name == "-"@ || name == "minus"@ || name == "hyphen"@
            ||| name == "="@ || name == "equals"@ || name == "equal"@ || name == "plus"@
            ||| name == "["@
            ||| name == "]"@
            ||| name == "\\"@ || name == "backslash"@
            ||| name == ";"@ || name == "semicolon"@
            ||| name == "'"@ || name == "quote"@ || name == "apostrophe"@
            ||| name == ","@ || name == "comma"@
            ||| name == "."@ || name == "period"@ || name == "dot"@
            ||| name == "/"@ || name == "slash"@
            ||| name == "`"@ || name == "grave"@ || name == "backtick"@
        }),
{
}

/// The name that a key is shown with, for those that have one. Typing that name gives the
/// key.
pub proof fn law_shown_key_names()
    ensures
        KeyCombo::key_name(0x00) == "A"@ && key_code_of("A"@) == Some(0x00u16),
        KeyCombo::key_name(0x01) == "S"@ && key_code_of("S"@) == Some(0x01u16),
        KeyCombo::key_name(0x02) == "D"@ && key_code_of("D"@) == Some(0x02u16),
        KeyCombo::key_name(0x03) == "F"@ && key_code_of("F"@) == Some(0x03u16),
        KeyCombo::key_name(0x06) == "Z"@ && key_code_of("Z"@) == Some(0x06u16),
        KeyCombo::key_name(0x07) == "X"@ && key_code_of("X"@) == Some(0x07u16),
        KeyCombo::key_name(0x08) == "C"@ && key_code_of("C"@) == Some(0x08u16),
        KeyCombo::key_name(0x09) == "V"@ && key_code_of("V"@) == Some(0x09u16),
        KeyCombo::key_name(0x0B) == "B"@ && key_code_of("B"@) == Some(0x0Bu16),
        KeyCombo::key_name(0x0C) == "Q"@ && key_code_of("Q"@) == Some(0x0Cu16),
        KeyCombo::key_name(0x0D) == "W"@ && key_code_of("W"@) == Some(0x0Du16),
        KeyCombo::key_name(0x0E) == "E"@ && key_code_of("E"@) == Some(0x0Eu16),
        KeyCombo::key_name(0x0F) == "R"@ && key_code_of("R"@) == Some(0x0Fu16),
        KeyCombo::key_name(0x10) == "Y"@ && key_code_of("Y"@) == Some(0x10u16),
        KeyCombo::key_name(0x11) == "T"@ && key_code_of("T"@) == Some(0x11u16),
        KeyCombo::key_name(0x20) == "U"@ && key_code_of("U"@) == Some(0x20u16),
        KeyCombo::key_name(0x22) == "I"@ && key_code_of("I"@) == Some(0x22u16),
        KeyCombo::key_name(0x1F) == "O"@ && key_code_of("O"@) == Some(0x1Fu16),
        KeyCombo::key_name(0x23) == "P"@ && key_code_of("P"@) == Some(0x23u16),
        KeyCombo::key_name(0x30) == "Tab"@ && key_code_of("Tab"@) == Some(0x30u16),
        KeyCombo::key_name(0x31) == "Space"@ && key_code_of("Space"@) == Some(0x31u16),
        KeyCombo::key_name(0x24) == "Enter"@ && key_code_of("Enter"@) == Some(0x24u16),
        KeyCombo::key_name(0x35) == "Esc"@ && key_code_of("Esc"@) == Some(0x35u16),
{
    reveal_strlit("A");
    law_character_keys('A');
    assert("A"@ =~= seq!['A']);
    reveal_strlit("S");
    law_character_keys('S');
    assert("S"@ =~= seq!['S']);
    reveal_strlit("D");
    law_character_keys('D');
    assert("D"@ =~= seq!['D']);
    reveal_strlit("F");
    law_character_keys('F');
    assert("F"@ =~= seq!['F']);
    reveal_strlit("Z");
    law_character_keys('Z');
    assert("Z"@ =~= seq!['Z']);
    reveal_strlit("X");
    law_character_keys('X');
    assert("X"@ =~= seq!['X']);
    reveal_strlit("C");
    law_character_keys('C');
    assert("C"@ =~= seq!['C']);
    reveal_strlit("V");
    law_character_keys('V');
    assert("V"@ =~= seq!['V']);
    reveal_strlit("B");
    law_character_keys('B');
    assert("B"@ =~= seq!['B']);
    reveal_strlit("Q");
    law_character_keys('Q');
    assert("Q"@ =~= seq!['Q']);
    reveal_strlit("W");
    law_character_keys('W');
    assert("W"@ =~= seq!['W']);
    reveal_strlit("E");
    law_character_keys('E');
    assert("E"@ =~= seq!['E']);
    reveal_strlit("R");
    law_character_keys('R');
    assert("R"@ =~= seq!['R']);
    reveal_strlit("Y");
    law_character_keys('Y');
    assert("Y"@ =~= seq!['Y']);
    reveal_strlit("T");
    law_character_keys('T');
    assert("T"@ =~= seq!['T']);
    reveal_strlit("U");
    law_character_keys('U');
    assert("U"@ =~= seq!['U']);
    reveal_strlit("I");
    law_character_keys('I');
    assert("I"@ =~= seq!['I']);
    reveal_strlit("O");
    law_character_keys('O');
    assert("O"@ =~= seq!['O']);
    reveal_strlit("P");
    law_character_keys('P');
    assert("P"@ =~= seq!['P']);
    reveal_strlit("Tab");
    reveal_strlit("tab");
    assert(lowered("Tab"@) =~= "tab"@);
    law_key_names("Tab"@);
    reveal_strlit("Space");
    reveal_strlit("space");
    assert(lowered("Space"@) =~= "space"@);
    law_key_names("Space"@);
    reveal_strlit("Enter");
    reveal_strlit("enter");
    assert(lowered("Enter"@) =~= "enter"@);
    law_key_names("Enter"@);
    reveal_strlit("Esc");
    reveal_strlit("esc");
    assert(lowered("Esc"@) =~= "esc"@);
    law_key_names("Esc"@);
}

/// A key without a name is shown by its code in hexadecimal, with two digits at least.
pub proof fn law_other_keys_are_shown_by_code(key_code: u16)
    ensures
        !(key_code == 0x00 || key_code == 0x01 || key_code == 0x02 || key_code == 0x03
            || key_code == 0x06 || key_code == 0x07 || key_code == 0x08 || key_code == 0x09
            || key_code == 0x0B || key_code == 0x0C || key_code == 0x0D || key_code == 0x0E
            || key_code == 0x0F || key_code == 0x10 || key_code == 0x11 || key_code == 0x20
            || key_code == 0x22 || key_code == 0x1F || key_code == 0x23 || key_code == 0x30
            || key_code == 0x31 || key_code == 0x24 || key_code == 0x35)
            ==> KeyCombo::key_name(key_code) == "key 0x"@ + numeral(key_code as nat, 16, 2),
{
}

/// A chord without a text of its own is shown as the signs of its modifiers, in the order
/// Control, Option, Shift, Command, and the key. One with a text is shown as that.
pub proof fn law_label(combo: KeyCombo)
    ensures
        combo.display@.len() > 0 ==> combo.label_text() == combo.display@,
        combo.display@.len() == 0 ==> combo.label_text() == if combo.modifiers & 4 != 0 {
            "⌃"@
        } else {
            Seq::empty()
        } + if combo.modifiers & 8 != 0 {
            "⌥"@
        } else {
            Seq::empty()
        } + if combo.modifiers & 2 != 0 {
            "⇧"@
        } else {
            Seq::empty()
        } + if combo.modifiers & 1 != 0 {
            "⌘"@
        } else {
            Seq::empty()
        } + KeyCombo::key_name(combo.key_code),
{
}

/// A typed chord is shown as its modifiers, in the order Ctrl, Alt, Shift, Win, each with a
/// plus sign, and the key as it was typed, with a capital.
pub proof fn law_typed_display(modifiers: u8, token: Seq<char>, i: int)
    requires
        token.len() > 0,
    ensures
        typed_display(modifiers, token) == if modifiers & 4 != 0 {
            "Ctrl+"@
        } else {
            Seq::empty()
        } + if modifiers & 8 != 0 {
            "Alt+"@
        } else {
            Seq::empty()
        } + if modifiers & 2 != 0 {
            "Shift+"@
        } else {
            Seq::empty()
        } + if modifiers & 1 != 0 {
            "Win+"@
        } else {
            Seq::empty()
        } + key_label(token),
        key_label(token).len() == token.len(),
        key_label(token)[0] == upper(token[0]),
        0 < i < token.len() ==> key_label(token)[i] == token[i],
{
}

/// The modifiers of some tokens are those that one of the tokens names.
proof fn lemma_mask_members(t: Seq<Seq<char>>, bit: u8)
    requires
        bit == 1 || bit == 2 || bit == 4 || bit == 8,
    ensures
        modifier_mask(t) & bit != 0 <==> exists|j: int|
            0 <= j < t.len() && modifier_of(#[trigger] t[j]) == Some(bit),
    decreases t.len(),
{
    if t.len() == 0 {
        assert(0u8 & bit == 0) by (bit_vector);
    } else {
        let front = t.drop_last();
        lemma_mask_members(front, bit);
        let a = modifier_mask(front);
        let b = modifier_of(t.last()).unwrap_or(0);
        assert((a | b) & bit != 0 <==> a & bit != 0 || b & bit != 0) by (bit_vector);
        assert(b == 0 || b == 1 || b == 2 || b == 4 || b == 8);
        assert(b & bit != 0 <==> b == bit) by (bit_vector)
            requires
                b == 0 || b == 1 || b == 2 || b == 4 || b == 8,
                bit == 1 || bit == 2 || bit == 4 || bit == 8,
        ;
        if exists|j: int| 0 <= j < t.len() && modifier_of(#[trigger] t[j]) == Some(bit) {
            let j = choose|j: int| 0 <= j < t.len() && modifier_of(#[trigger] t[j]) == Some(bit);
            if j < front.len() {
                assert(front[j] == t[j]);
            }
        }
        if a & bit != 0 {
            let j = choose|j: int|
                0 <= j < front.len() && modifier_of(#[trigger] front[j]) == Some(bit);
            assert(t[j] == front[j]);
        }
        if b == bit {
            assert(modifier_of(t[t.len() - 1]) == Some(bit));
        }
    }
}

/// Typing modifiers and then a key gives that chord: the key that the last token names,
/// with every modifier that one of the others names and no further one, shown in the order
/// of [`typed_display`].
pub proof fn law_typed_chord(input: Seq<char>, bit: u8)
    requires
        bit == KeyCombo::MOD_CMD || bit == KeyCombo::MOD_SHIFT || bit == KeyCombo::MOD_CTRL || bit
            == KeyCombo::MOD_OPTION,
        tokens(input, '+').len() > 0,
        modifier_of(tokens(input, '+').last()) is None,
        key_code_of(tokens(input, '+').last()) is Some,
        forall|j: int|
            0 <= j < tokens(input, '+').len() - 1 ==> modifier_of(#[trigger] tokens(input, '+')[j])
                is Some,
    ensures
        parsed(input) is Ok,
        ({
            let t = tokens(input, '+');
            let chord = parsed(input)->Ok_0;
            &&& Some(chord.key_code) == key_code_of(t.last())
            &&& chord.modifiers & bit != 0 <==> exists|j: int|
                0 <= j < t.len() - 1 && modifier_of(#[trigger] t[j]) == Some(bit)
            &&& chord.modifiers <= 15
            &&& chord.display == typed_display(chord.modifiers, t.last())
        }),
{
    let t = tokens(input, '+');
    let n = t.len() - 1;
    lemma_run_step(t, n);
    assert(t.skip(n)[0] == t.last());
    assert(modifier_run(t) == n);
    lemma_mask_bits(t.take(n));
    lemma_mask_members(t.take(n), bit);
    if exists|j: int| 0 <= j < n && modifier_of(#[trigger] t[j]) == Some(bit) {
        let j = choose|j: int| 0 <= j < n && modifier_of(#[trigger] t[j]) == Some(bit);
        assert(t.take(n)[j] == t[j]);
    }
    if exists|j: int| 0 <= j < n && modifier_of(#[trigger] t.take(n)[j]) == Some(bit) {
        let j = choose|j: int| 0 <= j < n && modifier_of(#[trigger] t.take(n)[j]) == Some(bit);
        assert(t.take(n)[j] == t[j]);
    }
}

/// What is wrong with a text is said of its first bad token: nothing typed, modifiers only,
/// a token before the last that is no modifier, or a last token that is no key.
pub proof fn law_typing_mistakes(input: Seq<char>, i: int)
    ensures
        ({
            let t = tokens(input, '+');
            &&& t.len() == 0 ==> parsed(input) == Err::<ChordView, Seq<char>>(
                "Type a shortcut, e.g. Alt+Tab"@,
            )
            &&& t.len() > 0 && (forall|j: int|
                0 <= j < t.len() ==> modifier_of(#[trigger] t[j]) is Some) ==> parsed(input)
                == Err::<ChordView, Seq<char>>("Add a key after the modifiers, e.g. Alt+Tab"@)
            &&& 0 <= i < t.len() - 1 && modifier_of(t[i]) is None && (forall|j: int|
                0 <= j < i ==> modifier_of(#[trigger] t[j]) is Some) ==> parsed(input) == Err::<
                ChordView,
                Seq<char>,
            >("Unknown modifier '"@ + t[i] + "'"@)
            &&& t.len() > 0 && modifier_of(t.last()) is None && key_code_of(t.last()) is None && (
            forall|j: int| 0 <= j < t.len() - 1 ==> modifier_of(#[trigger] t[j]) is Some)
                ==> parsed(input) == Err::<ChordView, Seq<char>>(
                "Unknown key '"@ + t.last() + "'"@,
            )
        }),
{
    let t = tokens(input, '+');
    if t.len() > 0 && (forall|j: int| 0 <= j < t.len() ==> modifier_of(#[trigger] t[j]) is Some) {
        lemma_run_step(t, t.len() as int);
    }
    if 0 <= i < t.len() && modifier_of(t[i]) is None && (forall|j: int|
        0 <= j < i ==> modifier_of(#[trigger] t[j]) is Some) {
        lemma_run_step(t, i);
        assert(t.skip(i)[0] == t[i]);
        assert(modifier_run(t) == i);
    }
    if t.len() > 0 && modifier_of(t.last()) is None && (forall|j: int|
        0 <= j < t.len() - 1 ==> modifier_of(#[trigger] t[j]) is Some) {
        let n = t.len() - 1;
        lemma_run_step(t, n);
        assert(t.skip(n)[0] == t.last());
        assert(modifier_run(t) == n);
    }
}

// ---------------------------------------------------------------------------
// Chords by their usual text
// ---------------------------------------------------------------------------

/// Whether typing `text` gives the chord of these modifiers and this key.
#[verifier::opaque]
pub open spec fn types(text: Seq<char>, modifiers: u8, key_code: u16) -> bool {
    parsed(text) matches Ok(chord) && chord.modifiers == modifiers && chord.key_code == key_code
}

/// A token by itself.
spec fn plain(token: Seq<char>) -> bool {
    token.len() > 0 && is_trim(token) && !token.contains('+')
}

proof fn lemma_typed(input: Seq<char>, names: Seq<Seq<char>>, key: Seq<char>)
    requires
        tokens(input, '+') == names.push(key),
        forall|j: int| 0 <= j < names.len() ==> modifier_of(#[trigger] names[j]) is Some,
        modifier_of(key) is None,
        key_code_of(key) is Some,
    ensures
        types(input, modifier_mask(names), key_code_of(key)->Some_0),
{
    let t = names.push(key);
    let n = names.len() as int;
    assert forall|j: int| 0 <= j < n implies modifier_of(#[trigger] t[j]) is Some by {
        assert(t[j] == names[j]);
    }
    lemma_run_step(t, n);
    assert(t.skip(n)[0] == key);
    assert(modifier_run(t) == n);
    assert(t.take(n) =~= names);
    reveal(types);
}

proof fn lemma_typed_one(a: Seq<char>, key: Seq<char>, x: u8)
    requires
        plain(a) && plain(key),
        modifier_of(a) == Some(x),
        modifier_of(key) is None,
        key_code_of(key) is Some,
    ensures
        types(a.push('+') + key, x, key_code_of(key)->Some_0),
{
    lemma_tokens_one(key, '+');
    lemma_tokens_join(a, key, '+');
    assert(seq![a] + seq![key] =~= seq![a].push(key));
    lemma_typed(a.push('+') + key, seq![a], key);
    reveal_with_fuel(modifier_mask, 2);
    assert(seq![a].drop_last() =~= Seq::empty());
    assert(0u8 | x == x) by (bit_vector);
}

proof fn lemma_typed_two(a: Seq<char>, b: Seq<char>, key: Seq<char>, x: u8, y: u8)
    requires
        plain(a) && plain(b) && plain(key),
        modifier_of(a) == Some(x),
        modifier_of(b) == Some(y),
        modifier_of(key) is None,
        key_code_of(key) is Some,
    ensures
        types(a.push('+') + (b.push('+') + key), x | y, key_code_of(key)->Some_0),
{
    lemma_tokens_one(key, '+');
    lemma_tokens_join(b, key, '+');
    lemma_tokens_join(a, b.push('+') + key, '+');
    assert(seq![a] + (seq![b] + seq![key]) =~= seq![a, b].push(key));
    lemma_typed(a.push('+') + (b.push('+') + key), seq![a, b], key);
    reveal_with_fuel(modifier_mask, 3);
    assert(seq![a, b].drop_last() =~= seq![a]);
    assert(seq![a].drop_last() =~= Seq::empty());
    assert((0u8 | x) | y == x | y) by (bit_vector);
}

proof fn lemma_typed_three(
    a: Seq<char>,
    b: Seq<char>,
    c: Seq<char>,
    key: Seq<char>,
    x: u8,
    y: u8,
    z: u8,
)
    requires
        plain(a) && plain(b) && plain(c) && plain(key),
        modifier_of(a) == Some(x),
        modifier_of(b) == Some(y),
        modifier_of(c) == Some(z),
        modifier_of(key) is None,
        key_code_of(key) is Some,
    ensures
        types(
            a.push('+') + (b.push('+') + (c.push('+') + key)),
            x | y | z,
            key_code_of(key)->Some_0,
        ),
{
    lemma_tokens_one(key, '+');
    lemma_tokens_join(c, key, '+');
    lemma_tokens_join(b, c.push('+') + key, '+');
    lemma_tokens_join(a, b.push('+') + (c.push('+') + key), '+');
    assert(seq![a] + (seq![b] + (seq![c] + seq![key])) =~= seq![a, b, c].push(key));
    lemma_typed(a.push('+') + (b.push('+') + (c.push('+') + key)), seq![a, b, c], key);
    reveal_with_fuel(modifier_mask, 4);
    assert(seq![a, b, c].drop_last() =~= seq![a, b]);
    assert(seq![a, b].drop_last() =~= seq![a]);
    assert(seq![a].drop_last() =~= Seq::empty());
    assert(((0u8 | x) | y) | z == x | y | z) by (bit_vector);
}

/// The tokens that common chords are written with.
proof fn lemma_chord_tokens()
    ensures
        plain("Ctrl"@) && modifier_of("Ctrl"@) == Some(4u8),
        plain("Alt"@) && modifier_of("Alt"@) == Some(8u8),
        plain("Shift"@) && modifier_of("Shift"@) == Some(2u8),
        plain("Win"@) && modifier_of("Win"@) == Some(1u8),
        plain("Cmd"@) && modifier_of("Cmd"@) == Some(1u8),
        plain("3"@) && modifier_of("3"@) is None && key_code_of("3"@) == Some(0x14u16),
        plain("4"@) && modifier_of("4"@) is None && key_code_of("4"@) == Some(0x15u16),
        plain("A"@) && modifier_of("A"@) is None && key_code_of("A"@) == Some(0x00u16),
        plain("C"@) && modifier_of("C"@) is None && key_code_of("C"@) == Some(0x08u16),
        plain("D"@) && modifier_of("D"@) is None && key_code_of("D"@) == Some(0x02u16),
        plain("F"@) && modifier_of("F"@) is None && key_code_of("F"@) == Some(0x03u16),
        plain("L"@) && modifier_of("L"@) is None && key_code_of("L"@) == Some(0x25u16),
        plain("Q"@) && modifier_of("Q"@) is None && key_code_of("Q"@) == Some(0x0Cu16),
        plain("R"@) && modifier_of("R"@) is None && key_code_of("R"@) == Some(0x0Fu16),
        plain("S"@) && modifier_of("S"@) is None && key_code_of("S"@) == Some(0x01u16),
        plain("T"@) && modifier_of("T"@) is None && key_code_of("T"@) == Some(0x11u16),
        plain("V"@) && modifier_of("V"@) is None && key_code_of("V"@) == Some(0x09u16),
        plain("W"@) && modifier_of("W"@) is None && key_code_of("W"@) == Some(0x0Du16),
        plain("X"@) && modifier_of("X"@) is None && key_code_of("X"@) == Some(0x07u16),
        plain("Y"@) && modifier_of("Y"@) is None && key_code_of("Y"@) == Some(0x10u16),
        plain("Z"@) && modifier_of("Z"@) is None && key_code_of("Z"@) == Some(0x06u16),
        plain("["@) && modifier_of("["@) is None && key_code_of("["@) == Some(0x21u16),
        plain("]"@) && modifier_of("]"@) is None && key_code_of("]"@) == Some(0x1Eu16),
        plain("Tab"@) && modifier_of("Tab"@) is None && key_code_of("Tab"@) == Some(0x30u16),
        plain("Left"@) && modifier_of("Left"@) is None && key_code_of("Left"@) == Some(0x7Bu16),
        plain("Right"@) && modifier_of("Right"@) is None && key_code_of("Right"@) == Some(0x7Cu16),
{
    lemma_shown_literals();
    reveal_strlit("Cmd");
    reveal_strlit("cmd");
    assert(lowered("Cmd"@) =~= "cmd"@);
    law_modifier_names("Cmd"@);
    reveal_strlit("3");
    assert("3"@ =~= seq!['3']);
    law_character_keys('3');
    reveal_strlit("4");
    assert("4"@ =~= seq!['4']);
    law_character_keys('4');
    reveal_strlit("A");
    assert("A"@ =~= seq!['A']);
    law_character_keys('A');
    reveal_strlit("C");
    assert("C"@ =~= seq!['C']);
    law_character_keys('C');
    reveal_strlit("D");
    assert("D"@ =~= seq!['D']);
    law_character_keys('D');
    reveal_strlit("F");
    assert("F"@ =~= seq!['F']);
    law_character_keys('F');
    reveal_strlit("L");
    assert("L"@ =~= seq!['L']);
    law_character_keys('L');
    reveal_strlit("Q");
    assert("Q"@ =~= seq!['Q']);
    law_character_keys('Q');
    reveal_strlit("R");
    assert("R"@ =~= seq!['R']);
    law_character_keys('R');
    reveal_strlit("S");
    assert("S"@ =~= seq!['S']);
    law_character_keys('S');
    reveal_strlit("T");
    assert("T"@ =~= seq!['T']);
    law_character_keys('T');
    reveal_strlit("V");
    assert("V"@ =~= seq!['V']);
    law_character_keys('V');
    reveal_strlit("W");
    assert("W"@ =~= seq!['W']);
    law_character_keys('W');
    reveal_strlit("X");
    assert("X"@ =~= seq!['X']);
    law_character_keys('X');
    reveal_strlit("Y");
    assert("Y"@ =~= seq!['Y']);
    law_character_keys('Y');
    reveal_strlit("Z");
    assert("Z"@ =~= seq!['Z']);
    law_character_keys('Z');
    reveal_strlit("[");
    assert(lowered("["@) =~= "["@);
    law_key_names("["@);
    reveal_strlit("]");
    assert(lowered("]"@) =~= "]"@);
    law_key_names("]"@);
    reveal_strlit("Tab");
    reveal_strlit("tab");
    assert(lowered("Tab"@) =~= "tab"@);
    law_key_names("Tab"@);
    reveal_strlit("Left");
    reveal_strlit("left");
    assert(lowered("Left"@) =~= "left"@);
    law_key_names("Left"@);
    reveal_strlit("Right");
    reveal_strlit("right");
    assert(lowered("Right"@) =~= "right"@);
    law_key_names("Right"@);
    lemma_no_modifiers();
}

/// The names of modifiers have three characters or more, and none is the name of an arrow
/// or of the tab key.
proof fn lemma_no_modifiers()
    ensures
        forall|token: Seq<char>| token.len() < 3 ==> #[trigger] modifier_of(token) is None,
        modifier_of("Tab"@) is None,
        modifier_of("Left"@) is None,
        modifier_of("Right"@) is None,
{
    reveal_strlit("ctrl");
    reveal_strlit("control");
    reveal_strlit("ctl");
    reveal_strlit("alt");
    reveal_strlit("option");
    reveal_strlit("opt");
    reveal_strlit("shift");
    reveal_strlit("shft");
    reveal_strlit("cmd");
    reveal_strlit("command");
    reveal_strlit("win");
    reveal_strlit("windows");
    reveal_strlit("super");
    reveal_strlit("meta");
    reveal_strlit("gui");
    reveal_strlit("Tab");
    reveal_strlit("Left");
    reveal_strlit("Right");
    assert forall|token: Seq<char>| token.len() < 3 implies #[trigger] modifier_of(
        token,
    ) is None by {
        assert(lowered(token).len() == token.len());
    }
    assert(lowered("Tab"@).len() == 3 && lowered("Tab"@)[1] == 'a');
    assert(lowered("Left"@).len() == 4 && lowered("Left"@)[0] == 'l');
    assert(lowered("Right"@).len() == 5 && lowered("Right"@)[0] == 'r');
    assert("ctrl"@[0] == 'c');
    assert("ctl"@[1] == 't');
    assert("alt"@[1] == 'l');
    assert("opt"@[1] == 'p');
    assert("shift"@[0] == 's');
    assert("shft"@[0] == 's');
    assert("cmd"@[1] == 'm');
    assert("win"@[1] == 'i');
    assert("super"@[0] == 's');
    assert("meta"@[0] == 'm');
    assert("gui"@[1] == 'u');
}

proof fn lemma_ctrl_chords_a()
    ensures
        types("Ctrl+C"@, 4, 0x08),
        types("Ctrl+V"@, 4, 0x09),
        types("Ctrl+X"@, 4, 0x07),
        types("Ctrl+Z"@, 4, 0x06),
        types("Ctrl+Y"@, 4, 0x10),
        types("Ctrl+A"@, 4, 0x00),
{
    lemma_chord_tokens();
    assert(types("Ctrl+C"@, 4, 0x08)) by {
        reveal_strlit("Ctrl+C");
        reveal_strlit("Ctrl");
        reveal_strlit("C");
        assert("Ctrl+C"@ =~= "Ctrl"@.push('+') + "C"@);
        lemma_typed_one("Ctrl"@, "C"@, 4);
    }
    assert(types("Ctrl+V"@, 4, 0x09)) by {
        reveal_strlit("Ctrl+V");
        reveal_strlit("Ctrl");
        reveal_strlit("V");
        assert("Ctrl+V"@ =~= "Ctrl"@.push('+') + "V"@);
        lemma_typed_one("Ctrl"@, "V"@, 4);
    }
    assert(types("Ctrl+X"@, 4, 0x07)) by {
        reveal_strlit("Ctrl+X");
        reveal_strlit("Ctrl");
        reveal_strlit("X");
        assert("Ctrl+X"@ =~= "Ctrl"@.push('+') + "X"@);
        lemma_typed_one("Ctrl"@, "X"@, 4);
    }
    assert(types("Ctrl+Z"@, 4, 0x06)) by {
        reveal_strlit("Ctrl+Z");
        reveal_strlit("Ctrl");
        reveal_strlit("Z");
        assert("Ctrl+Z"@ =~= "Ctrl"@.push('+') + "Z"@);
        lemma_typed_one("Ctrl"@, "Z"@, 4);
    }
    assert(types("Ctrl+Y"@, 4, 0x10)) by {
        reveal_strlit("Ctrl+Y");
        reveal_strlit("Ctrl");
        reveal_strlit("Y");
        assert("Ctrl+Y"@ =~= "Ctrl"@.push('+') + "Y"@);
        lemma_typed_one("Ctrl"@, "Y"@, 4);
    }
    assert(types("Ctrl+A"@, 4, 0x00)) by {
        reveal_strlit("Ctrl+A");
        reveal_strlit("Ctrl");
        reveal_strlit("A");
        assert("Ctrl+A"@ =~= "Ctrl"@.push('+') + "A"@);
        lemma_typed_one("Ctrl"@, "A"@, 4);
    }
}

proof fn lemma_ctrl_chords_b()
    ensures
        types("Ctrl+F"@, 4, 0x03),
        types("Ctrl+S"@, 4, 0x01),
        types("Ctrl+T"@, 4, 0x11),
        types("Ctrl+W"@, 4, 0x0D),
        types("Ctrl+Tab"@, 4, 0x30),
        types("Ctrl+R"@, 4, 0x0F),
{
    lemma_chord_tokens();
    assert(types("Ctrl+F"@, 4, 0x03)) by {
        reveal_strlit("Ctrl+F");
        reveal_strlit("Ctrl");
        reveal_strlit("F");
        assert("Ctrl+F"@ =~= "Ctrl"@.push('+') + "F"@);
        lemma_typed_one("Ctrl"@, "F"@, 4);
    }
    assert(types("Ctrl+S"@, 4, 0x01)) by {
        reveal_strlit("Ctrl+S");
        reveal_strlit("Ctrl");
        reveal_strlit("S");
        assert("Ctrl+S"@ =~= "Ctrl"@.push('+') + "S"@);
        lemma_typed_one("Ctrl"@, "S"@, 4);
    }
    assert(types("Ctrl+T"@, 4, 0x11)) by {
        reveal_strlit("Ctrl+T");
        reveal_strlit("Ctrl");
        reveal_strlit("T");
        assert("Ctrl+T"@ =~= "Ctrl"@.push('+') + "T"@);
        lemma_typed_one("Ctrl"@, "T"@, 4);
    }
    assert(types("Ctrl+W"@, 4, 0x0D)) by {
        reveal_strlit("Ctrl+W");
        reveal_strlit("Ctrl");
        reveal_strlit("W");
        assert("Ctrl+W"@ =~= "Ctrl"@.push('+') + "W"@);
        lemma_typed_one("Ctrl"@, "W"@, 4);
    }
    assert(types("Ctrl+Tab"@, 4, 0x30)) by {
        reveal_strlit("Ctrl+Tab");
        reveal_strlit("Ctrl");
        reveal_strlit("Tab");
        assert("Ctrl+Tab"@ =~= "Ctrl"@.push('+') + "Tab"@);
        lemma_typed_one("Ctrl"@, "Tab"@, 4);
    }
    assert(types("Ctrl+R"@, 4, 0x0F)) by {
        reveal_strlit("Ctrl+R");
        reveal_strlit("Ctrl");
        reveal_strlit("R");
        assert("Ctrl+R"@ =~= "Ctrl"@.push('+') + "R"@);
        lemma_typed_one("Ctrl"@, "R"@, 4);
    }
}

proof fn lemma_ctrl_shift_chords()
    ensures
        types("Ctrl+Shift+Z"@, 6, 0x06),
        types("Ctrl+Shift+T"@, 6, 0x11),
        types("Ctrl+Shift+Tab"@, 6, 0x30),
{
    lemma_chord_tokens();
    assert(4u8 | 2u8 == 6u8 && 4u8 | 8u8 == 12u8 && 1u8 | 4u8 == 5u8 && 1u8 | 2u8 == 3u8 && 1u8
        | 2u8 | 4u8 == 7u8) by (bit_vector);
    assert(types("Ctrl+Shift+Z"@, 6, 0x06)) by {
        reveal_strlit("Ctrl+Shift+Z");
        reveal_strlit("Ctrl");
        reveal_strlit("Shift");
        reveal_strlit("Z");
        assert("Ctrl+Shift+Z"@ =~= "Ctrl"@.push('+') + ("Shift"@.push('+') + "Z"@));
        lemma_typed_two("Ctrl"@, "Shift"@, "Z"@, 4, 2);
    }
    assert(types("Ctrl+Shift+T"@, 6, 0x11)) by {
        reveal_strlit("Ctrl+Shift+T");
        reveal_strlit("Ctrl");
        reveal_strlit("Shift");
        reveal_strlit("T");
        assert("Ctrl+Shift+T"@ =~= "Ctrl"@.push('+') + ("Shift"@.push('+') + "T"@));
        lemma_typed_two("Ctrl"@, "Shift"@, "T"@, 4, 2);
    }
    assert(types("Ctrl+Shift+Tab"@, 6, 0x30)) by {
        reveal_strlit("Ctrl+Shift+Tab");
        reveal_strlit("Ctrl");
        reveal_strlit("Shift");
        reveal_strlit("Tab");
        assert("Ctrl+Shift+Tab"@ =~= "Ctrl"@.push('+') + ("Shift"@.push('+') + "Tab"@));
        lemma_typed_two("Ctrl"@, "Shift"@, "Tab"@, 4, 2);
    }
}

proof fn lemma_alt_chords()
    ensures
        types("Alt+Left"@, 8, 0x7B),
        types("Alt+Right"@, 8, 0x7C),
{
    lemma_chord_tokens();
    assert(types("Alt+Left"@, 8, 0x7B)) by {
        reveal_strlit("Alt+Left");
        reveal_strlit("Alt");
        reveal_strlit("Left");
        assert("Alt+Left"@ =~= "Alt"@.push('+') + "Left"@);
        lemma_typed_one("Alt"@, "Left"@, 8);
    }
    assert(types("Alt+Right"@, 8, 0x7C)) by {
        reveal_strlit("Alt+Right");
        reveal_strlit("Alt");
        reveal_strlit("Right");
        assert("Alt+Right"@ =~= "Alt"@.push('+') + "Right"@);
        lemma_typed_one("Alt"@, "Right"@, 8);
    }
}

proof fn lemma_ctrl_alt_chords()
    ensures
        types("Ctrl+Alt+Left"@, 12, 0x7B),
        types("Ctrl+Alt+Right"@, 12, 0x7C),
{
    lemma_chord_tokens();
    assert(4u8 | 2u8 == 6u8 && 4u8 | 8u8 == 12u8 && 1u8 | 4u8 == 5u8 && 1u8 | 2u8 == 3u8 && 1u8
        | 2u8 | 4u8 == 7u8) by (bit_vector);
    assert(types("Ctrl+Alt+Left"@, 12, 0x7B)) by {
        reveal_strlit("Ctrl+Alt+Left");
        reveal_strlit("Ctrl");
        reveal_strlit("Alt");
        reveal_strlit("Left");
        assert("Ctrl+Alt+Left"@ =~= "Ctrl"@.push('+') + ("Alt"@.push('+') + "Left"@));
        lemma_typed_two("Ctrl"@, "Alt"@, "Left"@, 4, 8);
    }
    assert(types("Ctrl+Alt+Right"@, 12, 0x7C)) by {
        reveal_strlit("Ctrl+Alt+Right");
        reveal_strlit("Ctrl");
        reveal_strlit("Alt");
        reveal_strlit("Right");
        assert("Ctrl+Alt+Right"@ =~= "Ctrl"@.push('+') + ("Alt"@.push('+') + "Right"@));
        lemma_typed_two("Ctrl"@, "Alt"@, "Right"@, 4, 8);
    }
}

/// Chords with Ctrl or Alt first, as they are usually written.
pub proof fn law_control_chords()
    ensures
        types("Ctrl+C"@, 4, 0x08),
        types("Ctrl+V"@, 4, 0x09),
        types("Ctrl+X"@, 4, 0x07),
        types("Ctrl+Z"@, 4, 0x06),
        types("Ctrl+Shift+Z"@, 6, 0x06),
        types("Ctrl+Y"@, 4, 0x10),
        types("Ctrl+A"@, 4, 0x00),
        types("Ctrl+F"@, 4, 0x03),
        types("Ctrl+S"@, 4, 0x01),
        types("Ctrl+T"@, 4, 0x11),
        types("Ctrl+W"@, 4, 0x0D),
        types("Ctrl+Shift+T"@, 6, 0x11),
        types("Ctrl+Tab"@, 4, 0x30),
        types("Ctrl+Shift+Tab"@, 6, 0x30),
        types("Ctrl+R"@, 4, 0x0F),
        types("Alt+Left"@, 8, 0x7B),
        types("Alt+Right"@, 8, 0x7C),
        types("Ctrl+Alt+Left"@, 12, 0x7B),
        types("Ctrl+Alt+Right"@, 12, 0x7C),
{
    lemma_ctrl_chords_a();
    lemma_ctrl_chords_b();
    lemma_ctrl_shift_chords();
    lemma_alt_chords();
    lemma_ctrl_alt_chords();
}

proof fn lemma_win_chords()
    ensures
        types("Win+Tab"@, 1, 0x30),
        types("Win+D"@, 1, 0x02),
        types("Win+L"@, 1, 0x25),
{
    lemma_chord_tokens();
    assert(types("Win+Tab"@, 1, 0x30)) by {
        reveal_strlit("Win+Tab");
        reveal_strlit("Win");
        reveal_strlit("Tab");
        assert("Win+Tab"@ =~= "Win"@.push('+') + "Tab"@);
        lemma_typed_one("Win"@, "Tab"@, 1);
    }
    assert(types("Win+D"@, 1, 0x02)) by {
        reveal_strlit("Win+D");
        reveal_strlit("Win");
        reveal_strlit("D");
        assert("Win+D"@ =~= "Win"@.push('+') + "D"@);
        lemma_typed_one("Win"@, "D"@, 1);
    }
    assert(types("Win+L"@, 1, 0x25)) by {
        reveal_strlit("Win+L");
        reveal_strlit("Win");
        reveal_strlit("L");
        assert("Win+L"@ =~= "Win"@.push('+') + "L"@);
        lemma_typed_one("Win"@, "L"@, 1);
    }
}

proof fn lemma_win_ctrl_chords()
    ensures
        types("Win+Ctrl+Left"@, 5, 0x7B),
        types("Win+Ctrl+Right"@, 5, 0x7C),
{
    lemma_chord_tokens();
    assert(4u8 | 2u8 == 6u8 && 4u8 | 8u8 == 12u8 && 1u8 | 4u8 == 5u8 && 1u8 | 2u8 == 3u8 && 1u8
        | 2u8 | 4u8 == 7u8) by (bit_vector);
    assert(types("Win+Ctrl+Left"@, 5, 0x7B)) by {
        reveal_strlit("Win+Ctrl+Left");
        reveal_strlit("Win");
        reveal_strlit("Ctrl");
        reveal_strlit("Left");
        assert("Win+Ctrl+Left"@ =~= "Win"@.push('+') + ("Ctrl"@.push('+') + "Left"@));
        lemma_typed_two("Win"@, "Ctrl"@, "Left"@, 1, 4);
    }
    assert(types("Win+Ctrl+Right"@, 5, 0x7C)) by {
        reveal_strlit("Win+Ctrl+Right");
        reveal_strlit("Win");
        reveal_strlit("Ctrl");
        reveal_strlit("Right");
        assert("Win+Ctrl+Right"@ =~= "Win"@.push('+') + ("Ctrl"@.push('+') + "Right"@));
        lemma_typed_two("Win"@, "Ctrl"@, "Right"@, 1, 4);
    }
}

proof fn lemma_win_shift_chords()
    ensures
        types("Win+Shift+S"@, 3, 0x01),
{
    lemma_chord_tokens();
    assert(4u8 | 2u8 == 6u8 && 4u8 | 8u8 == 12u8 && 1u8 | 4u8 == 5u8 && 1u8 | 2u8 == 3u8 && 1u8
        | 2u8 | 4u8 == 7u8) by (bit_vector);
    assert(types("Win+Shift+S"@, 3, 0x01)) by {
        reveal_strlit("Win+Shift+S");
        reveal_strlit("Win");
        reveal_strlit("Shift");
        reveal_strlit("S");
        assert("Win+Shift+S"@ =~= "Win"@.push('+') + ("Shift"@.push('+') + "S"@));
        lemma_typed_two("Win"@, "Shift"@, "S"@, 1, 2);
    }
}

/// Chords with Win first, as they are usually written.
pub proof fn law_windows_chords()
    ensures
        types("Win+Tab"@, 1, 0x30),
        types("Win+Ctrl+Left"@, 5, 0x7B),
        types("Win+Ctrl+Right"@, 5, 0x7C),
        types("Win+D"@, 1, 0x02),
        types("Win+L"@, 1, 0x25),
        types("Win+Shift+S"@, 3, 0x01),
{
    lemma_win_chords();
    lemma_win_ctrl_chords();
    lemma_win_shift_chords();
}

proof fn lemma_cmd_chords_a()
    ensures
        types("Cmd+C"@, 1, 0x08),
        types("Cmd+V"@, 1, 0x09),
        types("Cmd+X"@, 1, 0x07),
        types("Cmd+Z"@, 1, 0x06),
        types("Cmd+A"@, 1, 0x00),
        types("Cmd+F"@, 1, 0x03),
{
    lemma_chord_tokens();
    assert(types("Cmd+C"@, 1, 0x08)) by {
        reveal_strlit("Cmd+C");
        reveal_strlit("Cmd");
        reveal_strlit("C");
        assert("Cmd+C"@ =~= "Cmd"@.push('+') + "C"@);
        lemma_typed_one("Cmd"@, "C"@, 1);
    }
    assert(types("Cmd+V"@, 1, 0x09)) by {
        reveal_strlit("Cmd+V");
        reveal_strlit("Cmd");
        reveal_strlit("V");
        assert("Cmd+V"@ =~= "Cmd"@.push('+') + "V"@);
        lemma_typed_one("Cmd"@, "V"@, 1);
    }
    assert(types("Cmd+X"@, 1, 0x07)) by {
        reveal_strlit("Cmd+X");
        reveal_strlit("Cmd");
        reveal_strlit("X");
        assert("Cmd+X"@ =~= "Cmd"@.push('+') + "X"@);
        lemma_typed_one("Cmd"@, "X"@, 1);
    }
    assert(types("Cmd+Z"@, 1, 0x06)) by {
        reveal_strlit("Cmd+Z");
        reveal_strlit("Cmd");
        reveal_strlit("Z");
        assert("Cmd+Z"@ =~= "Cmd"@.push('+') + "Z"@);
        lemma_typed_one("Cmd"@, "Z"@, 1);
    }
    assert(types("Cmd+A"@, 1, 0x00)) by {
        reveal_strlit("Cmd+A");
        reveal_strlit("Cmd");
        reveal_strlit("A");
        assert("Cmd+A"@ =~= "Cmd"@.push('+') + "A"@);
        lemma_typed_one("Cmd"@, "A"@, 1);
    }
    assert(types("Cmd+F"@, 1, 0x03)) by {
        reveal_strlit("Cmd+F");
        reveal_strlit("Cmd");
        reveal_strlit("F");
        assert("Cmd+F"@ =~= "Cmd"@.push('+') + "F"@);
        lemma_typed_one("Cmd"@, "F"@, 1);
    }
}

proof fn lemma_cmd_chords_b()
    ensures
        types("Cmd+S"@, 1, 0x01),
        types("Cmd+["@, 1, 0x21),
        types("Cmd+]"@, 1, 0x1E),
        types("Cmd+T"@, 1, 0x11),
        types("Cmd+W"@, 1, 0x0D),
        types("Cmd+R"@, 1, 0x0F),
{
    lemma_chord_tokens();
    assert(types("Cmd+S"@, 1, 0x01)) by {
        reveal_strlit("Cmd+S");
        reveal_strlit("Cmd");
        reveal_strlit("S");
        assert("Cmd+S"@ =~= "Cmd"@.push('+') + "S"@);
        lemma_typed_one("Cmd"@, "S"@, 1);
    }
    assert(types("Cmd+["@, 1, 0x21)) by {
        reveal_strlit("Cmd+[");
        reveal_strlit("Cmd");
        reveal_strlit("[");
        assert("Cmd+["@ =~= "Cmd"@.push('+') + "["@);
        lemma_typed_one("Cmd"@, "["@, 1);
    }
    assert(types("Cmd+]"@, 1, 0x1E)) by {
        reveal_strlit("Cmd+]");
        reveal_strlit("Cmd");
        reveal_strlit("]");
        assert("Cmd+]"@ =~= "Cmd"@.push('+') + "]"@);
        lemma_typed_one("Cmd"@, "]"@, 1);
    }
    assert(types("Cmd+T"@, 1, 0x11)) by {
        reveal_strlit("Cmd+T");
        reveal_strlit("Cmd");
        reveal_strlit("T");
        assert("Cmd+T"@ =~= "Cmd"@.push('+') + "T"@);
        lemma_typed_one("Cmd"@, "T"@, 1);
    }
    assert(types("Cmd+W"@, 1, 0x0D)) by {
        reveal_strlit("Cmd+W");
        reveal_strlit("Cmd");
        reveal_strlit("W");
        assert("Cmd+W"@ =~= "Cmd"@.push('+') + "W"@);
        lemma_typed_one("Cmd"@, "W"@, 1);
    }
    assert(types("Cmd+R"@, 1, 0x0F)) by {
        reveal_strlit("Cmd+R");
        reveal_strlit("Cmd");
        reveal_strlit("R");
        assert("Cmd+R"@ =~= "Cmd"@.push('+') + "R"@);
        lemma_typed_one("Cmd"@, "R"@, 1);
    }
}

proof fn lemma_cmd_shift_chords()
    ensures
        types("Cmd+Shift+Z"@, 3, 0x06),
        types("Cmd+Shift+T"@, 3, 0x11),
        types("Cmd+Shift+3"@, 3, 0x14),
{
    lemma_chord_tokens();
    assert(4u8 | 2u8 == 6u8 && 4u8 | 8u8 == 12u8 && 1u8 | 4u8 == 5u8 && 1u8 | 2u8 == 3u8 && 1u8
        | 2u8 | 4u8 == 7u8) by (bit_vector);
    assert(types("Cmd+Shift+Z"@, 3, 0x06)) by {
        reveal_strlit("Cmd+Shift+Z");
        reveal_strlit("Cmd");
        reveal_strlit("Shift");
        reveal_strlit("Z");
        assert("Cmd+Shift+Z"@ =~= "Cmd"@.push('+') + ("Shift"@.push('+') + "Z"@));
        lemma_typed_two("Cmd"@, "Shift"@, "Z"@, 1, 2);
    }
    assert(types("Cmd+Shift+T"@, 3, 0x11)) by {
        reveal_strlit("Cmd+Shift+T");
        reveal_strlit("Cmd");
        reveal_strlit("Shift");
        reveal_strlit("T");
        assert("Cmd+Shift+T"@ =~= "Cmd"@.push('+') + ("Shift"@.push('+') + "T"@));
        lemma_typed_two("Cmd"@, "Shift"@, "T"@, 1, 2);
    }
    assert(types("Cmd+Shift+3"@, 3, 0x14)) by {
        reveal_strlit("Cmd+Shift+3");
        reveal_strlit("Cmd");
        reveal_strlit("Shift");
        reveal_strlit("3");
        assert("Cmd+Shift+3"@ =~= "Cmd"@.push('+') + ("Shift"@.push('+') + "3"@));
        lemma_typed_two("Cmd"@, "Shift"@, "3"@, 1, 2);
    }
}

proof fn lemma_cmd_ctrl_chords()
    ensures
        types("Cmd+Ctrl+Q"@, 5, 0x0C),
{
    lemma_chord_tokens();
    assert(4u8 | 2u8 == 6u8 && 4u8 | 8u8 == 12u8 && 1u8 | 4u8 == 5u8 && 1u8 | 2u8 == 3u8 && 1u8
        | 2u8 | 4u8 == 7u8) by (bit_vector);
    assert(types("Cmd+Ctrl+Q"@, 5, 0x0C)) by {
        reveal_strlit("Cmd+Ctrl+Q");
        reveal_strlit("Cmd");
        reveal_strlit("Ctrl");
        reveal_strlit("Q");
        assert("Cmd+Ctrl+Q"@ =~= "Cmd"@.push('+') + ("Ctrl"@.push('+') + "Q"@));
        lemma_typed_two("Cmd"@, "Ctrl"@, "Q"@, 1, 4);
    }
}

proof fn lemma_cmd_shift_ctrl_chords()
    ensures
        types("Cmd+Shift+Ctrl+4"@, 7, 0x15),
{
    lemma_chord_tokens();
    assert(4u8 | 2u8 == 6u8 && 4u8 | 8u8 == 12u8 && 1u8 | 4u8 == 5u8 && 1u8 | 2u8 == 3u8 && 1u8
        | 2u8 | 4u8 == 7u8) by (bit_vector);
    assert(types("Cmd+Shift+Ctrl+4"@, 7, 0x15)) by {
        reveal_strlit("Cmd+Shift+Ctrl+4");
        reveal_strlit("Cmd");
        reveal_strlit("Shift");
        reveal_strlit("Ctrl");
        reveal_strlit("4");
        let text = "Cmd"@.push('+') + ("Shift"@.push('+') + ("Ctrl"@.push('+') + "4"@));
        assert("Cmd+Shift+Ctrl+4"@ =~= text);
        lemma_typed_three("Cmd"@, "Shift"@, "Ctrl"@, "4"@, 1, 2, 4);
    }
}

/// Chords with Cmd first, as they are usually written.
pub proof fn law_command_chords()
    ensures
        types("Cmd+C"@, 1, 0x08),
        types("Cmd+V"@, 1, 0x09),
        types("Cmd+X"@, 1, 0x07),
        types("Cmd+Z"@, 1, 0x06),
        types("Cmd+Shift+Z"@, 3, 0x06),
        types("Cmd+A"@, 1, 0x00),
        types("Cmd+F"@, 1, 0x03),
        types("Cmd+S"@, 1, 0x01),
        types("Cmd+["@, 1, 0x21),
        types("Cmd+]"@, 1, 0x1E),
        types("Cmd+T"@, 1, 0x11),
        types("Cmd+W"@, 1, 0x0D),
        types("Cmd+Shift+T"@, 3, 0x11),
        types("Cmd+R"@, 1, 0x0F),
        types("Cmd+Ctrl+Q"@, 5, 0x0C),
        types("Cmd+Shift+3"@, 3, 0x14),
        types("Cmd+Shift+Ctrl+4"@, 7, 0x15),
{
    lemma_cmd_chords_a();
    lemma_cmd_chords_b();
    lemma_cmd_shift_chords();
    lemma_cmd_ctrl_chords();
    lemma_cmd_shift_ctrl_chords();
}

} // verus!
