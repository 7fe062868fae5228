//! Key chords: the modifier set, the key, and the textual forms they are
//! written in.
//!
//! A chord is written as tokens joined by `+`. The last token names the key,
//! the tokens before it name modifiers. Tokens are compared without regard to
//! case and to surrounding white space.

use crate::text::{
    append_chars, append_str, chars_eq_str, from_chars, join, lowercase, lowercase_of,
    slice_chars, split, split_chars, starts_with, starts_with_chars, to_chars, trim, trim_chars,
    views,
};
use global_hotkey::hotkey::{Code, HotKey};
use vstd::prelude::*;

verus! {

/// What can go wrong with a hotkey.
#[derive(Debug)]
pub enum HotkeyError {
    /// The platform's hotkey service could not be started.
    ManagerCreationFailed(String),
    /// The platform refused the registration for the reason given.
    RegistrationFailed(String),
    /// The chord is already claimed.
    AlreadyInUse,
    /// The chord's text names an unknown modifier or key.
    InvalidSpec(String),
    /// The workflow has no chord.
    NotRegistered,
}

/// A hotkey error as the contracts speak of it: the same cases, with the
/// reports as plain text.
pub ghost enum HotkeyFailure {
    ManagerCreationFailed(Seq<char>),
    RegistrationFailed(Seq<char>),
    AlreadyInUse,
    InvalidSpec(Seq<char>),
    NotRegistered,
}

impl View for HotkeyError {
    type V = HotkeyFailure;

    open spec fn view(&self) -> HotkeyFailure {
        match self {
            HotkeyError::ManagerCreationFailed(d) => HotkeyFailure::ManagerCreationFailed(d@),
            HotkeyError::RegistrationFailed(d) => HotkeyFailure::RegistrationFailed(d@),
            HotkeyError::AlreadyInUse => HotkeyFailure::AlreadyInUse,
            HotkeyError::InvalidSpec(d) => HotkeyFailure::InvalidSpec(d@),
            HotkeyError::NotRegistered => HotkeyFailure::NotRegistered,
        }
    }
}

/// The words for a hotkey error.
pub open spec fn hotkey_message(e: HotkeyFailure) -> Seq<char> {
    match e {
        HotkeyFailure::ManagerCreationFailed(d) => "Failed to create hotkey manager: "@ + d,
        HotkeyFailure::RegistrationFailed(d) => "Failed to register hotkey: "@ + d,
        HotkeyFailure::AlreadyInUse => "Hotkey is already in use by another application"@,
        HotkeyFailure::InvalidSpec(d) => "Invalid hotkey: "@ + d,
        HotkeyFailure::NotRegistered => "No hotkey is registered for the template"@,
    }
}

impl HotkeyError {
    /// The words for this error.
    pub fn message(&self) -> (r: String)
        ensures
            r@ == hotkey_message(self@),
    {
        let mut out: Vec<char> = Vec::new();
        match self {
            HotkeyError::ManagerCreationFailed(d) => {
                append_str(&mut out, "Failed to create hotkey manager: ");
                append_str(&mut out, d.as_str());
            },
            HotkeyError::RegistrationFailed(d) => {
                append_str(&mut out, "Failed to register hotkey: ");
                append_str(&mut out, d.as_str());
            },
            HotkeyError::AlreadyInUse => {
                append_str(&mut out, "Hotkey is already in use by another application");
            },
            HotkeyError::InvalidSpec(d) => {
                append_str(&mut out, "Invalid hotkey: ");
                append_str(&mut out, d.as_str());
            },
            HotkeyError::NotRegistered => {
                append_str(&mut out, "No hotkey is registered for the template");
            },
        }
        assert(out@ =~= hotkey_message(self@));
        from_chars(&out)
    }
}

/// One modifier key.
#[derive(Debug, Clone, Copy, PartialEq, Eq, Structural)]
pub enum Modifier {
    Super,
    Control,
    Alt,
    Shift,
}

/// A set of modifier keys.
#[derive(Debug, Clone, Copy, PartialEq, Eq, Structural)]
pub struct Modifiers {
    pub super_key: bool,
    pub control: bool,
    pub alt: bool,
    pub shift: bool,
}

/// A physical key.
#[derive(Debug, Clone, Copy, PartialEq, Eq, Structural)]
pub enum KeyCode {
    KeyA,
    KeyB,
    KeyC,
    KeyD,
    KeyE,
    KeyF,
    KeyG,
    KeyH,
    KeyI,
    KeyJ,
    KeyK,
    KeyL,
    KeyM,
    KeyN,
    KeyO,
    KeyP,
    KeyQ,
    KeyR,
    KeyS,
    KeyT,
    KeyU,
    KeyV,
    KeyW,
    KeyX,
    KeyY,
    KeyZ,
    Digit0,
    Digit1,
    Digit2,
    Digit3,
    Digit4,
    Digit5,
    Digit6,
    Digit7,
    Digit8,
    Digit9,
    F1,
    F2,
    F3,
    F4,
    F5,
    F6,
    F7,
    F8,
    F9,
    F10,
    F11,
    F12,
    BracketRight,
    BracketLeft,
    Semicolon,
    Quote,
    Comma,
    Period,
    Slash,
    Backslash,
    Minus,
    Equal,
    Space,
    Enter,
    Tab,
    Backspace,
    Delete,
    Escape,
}

/// A set of modifiers held together with one key.
#[derive(Debug, Clone, Copy, PartialEq, Eq, Structural)]
pub struct Chord {
    pub modifiers: Modifiers,
    pub key: KeyCode,
}

impl Modifiers {
    /// Whether `m` is in the set.
    pub open spec fn has(self, m: Modifier) -> bool {
        match m {
            Modifier::Super => self.super_key,
            Modifier::Control => self.control,
            Modifier::Alt => self.alt,
            Modifier::Shift => self.shift,
        }
    }

    /// The set with `m` added.
    pub open spec fn with(self, m: Modifier) -> Modifiers {
        match m {
            Modifier::Super => Modifiers { super_key: true, ..self },
            Modifier::Control => Modifiers { control: true, ..self },
            Modifier::Alt => Modifiers { alt: true, ..self },
            Modifier::Shift => Modifiers { shift: true, ..self },
        }
    }

    /// The set without any modifier.
    pub open spec fn none() -> Modifiers {
        Modifiers { super_key: false, control: false, alt: false, shift: false }
    }

    /// The empty set.
    pub fn empty() -> (r: Modifiers)
        ensures
            r == Modifiers::none(),
            forall|m: Modifier| !r.has(m),
    {
        Modifiers { super_key: false, control: false, alt: false, shift: false }
    }

    /// Adds `m` to the set; a modifier already in it stays once.
    pub fn insert(&mut self, m: Modifier)
        ensures
            *final(self) == old(self).with(m),
            forall|x: Modifier| final(self).has(x) == (x == m || old(self).has(x)),
    {
        match m {
            Modifier::Super => {
                self.super_key = true;
            },
            Modifier::Control => {
                self.control = true;
            },
            Modifier::Alt => {
                self.alt = true;
            },
            Modifier::Shift => {
                self.shift = true;
            },
        }
    }

    /// Whether `m` is in the set.
    pub fn contains(&self, m: Modifier) -> (b: bool)
        ensures
            b == self.has(m),
    {
        match m {
            Modifier::Super => self.super_key,
            Modifier::Control => self.control,
            Modifier::Alt => self.alt,
            Modifier::Shift => self.shift,
        }
    }
}

/// The name under which the platform knows a key.
pub open spec fn code_name(key: KeyCode) -> Seq<char> {
    match key {
        KeyCode::KeyA => "KeyA"@,
        KeyCode::KeyB => "KeyB"@,
        KeyCode::KeyC => "KeyC"@,
        KeyCode::KeyD => "KeyD"@,
        KeyCode::KeyE => "KeyE"@,
        KeyCode::KeyF => "KeyF"@,
        KeyCode::KeyG => "KeyG"@,
        KeyCode::KeyH => "KeyH"@,
        KeyCode::KeyI => "KeyI"@,
        KeyCode::KeyJ => "KeyJ"@,
        KeyCode::KeyK => "KeyK"@,
        KeyCode::KeyL => "KeyL"@,
        KeyCode::KeyM => "KeyM"@,
        KeyCode::KeyN => "KeyN"@,
        KeyCode::KeyO => "KeyO"@,
        KeyCode::KeyP => "KeyP"@,
        KeyCode::KeyQ => "KeyQ"@,
        KeyCode::KeyR => "KeyR"@,
        KeyCode::KeyS => "KeyS"@,
        KeyCode::KeyT => "KeyT"@,
        KeyCode::KeyU => "KeyU"@,
        KeyCode::KeyV => "KeyV"@,
        KeyCode::KeyW => "KeyW"@,
        KeyCode::KeyX => "KeyX"@,
        KeyCode::KeyY => "KeyY"@,
        KeyCode::KeyZ => "KeyZ"@,
        KeyCode::Digit0 => "Digit0"@,
        KeyCode::Digit1 => "Digit1"@,
        KeyCode::Digit2 => "Digit2"@,
        KeyCode::Digit3 => "Digit3"@,
        KeyCode::Digit4 => "Digit4"@,
        KeyCode::Digit5 => "Digit5"@,
        KeyCode::Digit6 => "Digit6"@,
        KeyCode::Digit7 => "Digit7"@,
        KeyCode::Digit8 => "Digit8"@,
        KeyCode::Digit9 => "Digit9"@,
        KeyCode::F1 => "F1"@,
        KeyCode::F2 => "F2"@,
        KeyCode::F3 => "F3"@,
        KeyCode::F4 => "F4"@,
        KeyCode::F5 => "F5"@,
        KeyCode::F6 => "F6"@,
        KeyCode::F7 => "F7"@,
        KeyCode::F8 => "F8"@,
        KeyCode::F9 => "F9"@,
        KeyCode::F10 => "F10"@,
        KeyCode::F11 => "F11"@,
        KeyCode::F12 => "F12"@,
        KeyCode::BracketRight => "BracketRight"@,
        KeyCode::BracketLeft => "BracketLeft"@,
        KeyCode::Semicolon => "Semicolon"@,
        KeyCode::Quote => "Quote"@,
        KeyCode::Comma => "Comma"@,
        KeyCode::Period => "Period"@,
        KeyCode::Slash => "Slash"@,
        KeyCode::Backslash => "Backslash"@,
        KeyCode::Minus => "Minus"@,
        KeyCode::Equal => "Equal"@,
        KeyCode::Space => "Space"@,
        KeyCode::Enter => "Enter"@,
        KeyCode::Tab => "Tab"@,
        KeyCode::Backspace => "Backspace"@,
        KeyCode::Delete => "Delete"@,
        KeyCode::Escape => "Escape"@,
    }
}

impl KeyCode {
    /// The name under which the platform knows this key.
    pub fn name(&self) -> (r: &'static str)
        ensures
            r@ == code_name(*self),
    {
        match self {
            KeyCode::KeyA => "KeyA",
            KeyCode::KeyB => "KeyB",
            KeyCode::KeyC => "KeyC",
            KeyCode::KeyD => "KeyD",
            KeyCode::KeyE => "KeyE",
            KeyCode::KeyF => "KeyF",
            KeyCode::KeyG => "KeyG",
            KeyCode::KeyH => "KeyH",
            KeyCode::KeyI => "KeyI",
            KeyCode::KeyJ => "KeyJ",
            KeyCode::KeyK => "KeyK",
            KeyCode::KeyL => "KeyL",
            KeyCode::KeyM => "KeyM",
            KeyCode::KeyN => "KeyN",
            KeyCode::KeyO => "KeyO",
            KeyCode::KeyP => "KeyP",
            KeyCode::KeyQ => "KeyQ",
            KeyCode::KeyR => "KeyR",
            KeyCode::KeyS => "KeyS",
            KeyCode::KeyT => "KeyT",
            KeyCode::KeyU => "KeyU",
            KeyCode::KeyV => "KeyV",
            KeyCode::KeyW => "KeyW",
            KeyCode::KeyX => "KeyX",
            KeyCode::KeyY => "KeyY",
            KeyCode::KeyZ => "KeyZ",
            KeyCode::Digit0 => "Digit0",
            KeyCode::Digit1 => "Digit1",
            KeyCode::Digit2 => "Digit2",
            KeyCode::Digit3 => "Digit3",
            KeyCode::Digit4 => "Digit4",
            KeyCode::Digit5 => "Digit5",
            KeyCode::Digit6 => "Digit6",
            KeyCode::Digit7 => "Digit7",
            KeyCode::Digit8 => "Digit8",
            KeyCode::Digit9 => "Digit9",
            KeyCode::F1 => "F1",
            KeyCode::F2 => "F2",
            KeyCode::F3 => "F3",
            KeyCode::F4 => "F4",
            KeyCode::F5 => "F5",
            KeyCode::F6 => "F6",
            KeyCode::F7 => "F7",
            KeyCode::F8 => "F8",
            KeyCode::F9 => "F9",
            KeyCode::F10 => "F10",
            KeyCode::F11 => "F11",
            KeyCode::F12 => "F12",
            KeyCode::BracketRight => "BracketRight",
            KeyCode::BracketLeft => "BracketLeft",
            KeyCode::Semicolon => "Semicolon",
            KeyCode::Quote => "Quote",
            KeyCode::Comma => "Comma",
            KeyCode::Period => "Period",
            KeyCode::Slash => "Slash",
            KeyCode::Backslash => "Backslash",
            KeyCode::Minus => "Minus",
            KeyCode::Equal => "Equal",
            KeyCode::Space => "Space",
            KeyCode::Enter => "Enter",
            KeyCode::Tab => "Tab",
            KeyCode::Backspace => "Backspace",
            KeyCode::Delete => "Delete",
            KeyCode::Escape => "Escape",
        }
    }
}

// ---------------------------------------------------------------------------
// Tokens
// ---------------------------------------------------------------------------

/// The modifier that a lower-case token names.
pub open spec fn modifier_of_token(token: Seq<char>) -> Option<Modifier> {
    if token == "cmd"@ || token == "super"@ || token == "command"@ {
        Some(Modifier::Super)
    } else if token == "ctrl"@ || token == "control"@ {
        Some(Modifier::Control)
    } else if token == "alt"@ || token == "option"@ {
        Some(Modifier::Alt)
    } else if token == "shift"@ {
        Some(Modifier::Shift)
    } else {
        None
    }
}

/// The key that a lower-case token names.
pub open spec fn key_of_token(token: Seq<char>) -> Option<KeyCode> {
    if token == "a"@ {
        Some(KeyCode::KeyA)
    } else if token == "b"@ {
        Some(KeyCode::KeyB)
    } else if token == "c"@ {
        Some(KeyCode::KeyC)
    } else if token == "d"@ {
        Some(KeyCode::KeyD)
    } else if token == "e"@ {
        Some(KeyCode::KeyE)
    } else if token == "f"@ {
        Some(KeyCode::KeyF)
    } else if token == "g"@ {
        Some(KeyCode::KeyG)
    } else if token == "h"@ {
        Some(KeyCode::KeyH)
    } else if token == "i"@ {
        Some(KeyCode::KeyI)
    } else if token == "j"@ {
        Some(KeyCode::KeyJ)
    } else if token == "k"@ {
        Some(KeyCode::KeyK)
    } else if token == "l"@ {
        Some(KeyCode::KeyL)
    } else if token == "m"@ {
        Some(KeyCode::KeyM)
    } else if token == "n"@ {
        Some(KeyCode::KeyN)
    } else if token == "o"@ {
        Some(KeyCode::KeyO)
    } else if token == "p"@ {
        Some(KeyCode::KeyP)
    } else if token == "q"@ {
        Some(KeyCode::KeyQ)
    } else if token == "r"@ {
        Some(KeyCode::KeyR)
    } else if token == "s"@ {
        Some(KeyCode::KeyS)
    } else if token == "t"@ {
        Some(KeyCode::KeyT)
    } else if token == "u"@ {
        Some(KeyCode::KeyU)
    } else if token == "v"@ {
        Some(KeyCode::KeyV)
    } else if token == "w"@ {
        Some(KeyCode::KeyW)
    } else if token == "x"@ {
        Some(KeyCode::KeyX)
    } else if token == "y"@ {
        Some(KeyCode::KeyY)
    } else if token == "z"@ {
        Some(KeyCode::KeyZ)
    } else if token == "0"@ {
        Some(KeyCode::Digit0)
    } else if token == "1"@ {
        Some(KeyCode::Digit1)
    } else if token == "2"@ {
        Some(KeyCode::Digit2)
    } else if token == "3"@ {
        Some(KeyCode::Digit3)
    } else if token == "4"@ {
        Some(KeyCode::Digit4)
    } else if token == "5"@ {
        Some(KeyCode::Digit5)
    } else if token == "6"@ {
        Some(KeyCode::Digit6)
    } else if token == "7"@ {
        Some(KeyCode::Digit7)
    } else if token == "8"@ {
        Some(KeyCode::Digit8)
    } else if token == "9"@ {
        Some(KeyCode::Digit9)
    } else if token == "f1"@ {
        Some(KeyCode::F1)
    } else if token == "f2"@ {
        Some(KeyCode::F2)
    } else if token == "f3"@ {
        Some(KeyCode::F3)
    } else if token == "f4"@ {
        Some(KeyCode::F4)
    } else if token == "f5"@ {
        Some(KeyCode::F5)
    } else if token == "f6"@ {
        Some(KeyCode::F6)
    } else if token == "f7"@ {
        Some(KeyCode::F7)
    } else if token == "f8"@ {
        Some(KeyCode::F8)
    } else if token == "f9"@ {
        Some(KeyCode::F9)
    } else if token == "f10"@ {
        Some(KeyCode::F10)
    } else if token == "f11"@ {
        Some(KeyCode::F11)
    } else if token == "f12"@ {
        Some(KeyCode::F12)
    } else if token == "]"@ || token == "bracketright"@ {
        Some(KeyCode::BracketRight)
    } else if token == "["@ || token == "bracketleft"@ {
        Some(KeyCode::BracketLeft)
    } else if token == ";"@ || token == "semicolon"@ {
        Some(KeyCode::Semicolon)
    } else if token == "'"@ || token == "quote"@ {
        Some(KeyCode::Quote)
    } else if token == ","@ || token == "comma"@ {
        Some(KeyCode::Comma)
    } else if token == "."@ || token == "period"@ {
        Some(KeyCode::Period)
    } else if token == "/"@ || token == "slash"@ {
        Some(KeyCode::Slash)
    } else if token == "\\"@ || token == "backslash"@ {
        Some(KeyCode::Backslash)
    } else if token == "-"@ || token == "minus"@ {
        Some(KeyCode::Minus)
    } else if token == "="@ || token == "equal"@ {
        Some(KeyCode::Equal)
    } else if token == "space"@ {
        Some(KeyCode::Space)
    } else if token == "enter"@ || token == "return"@ {
        Some(KeyCode::Enter)
    } else if token == "tab"@ {
        Some(KeyCode::Tab)
    } else if token == "backspace"@ {
        Some(KeyCode::Backspace)
    } else if token == "delete"@ {
        Some(KeyCode::Delete)
    } else if token == "escape"@ || token == "esc"@ {
        Some(KeyCode::Escape)
    } else {
        None
    }
}

fn modifier_of_chars(token: &Vec<char>) -> (r: Option<Modifier>)
    ensures
        r == modifier_of_token(token@),
{
    if chars_eq_str(token, "cmd") || chars_eq_str(token, "super") || chars_eq_str(
        token,
        "command",
    ) {
        Some(Modifier::Super)
    } else if chars_eq_str(token, "ctrl") || chars_eq_str(token, "control") {
        Some(Modifier::Control)
    } else if chars_eq_str(token, "alt") || chars_eq_str(token, "option") {
        Some(Modifier::Alt)
    } else if chars_eq_str(token, "shift") {
        Some(Modifier::Shift)
    } else {
        None
    }
}

fn key_of_chars(token: &Vec<char>) -> (r: Option<KeyCode>)
    ensures
        r == key_of_token(token@),
{
    if chars_eq_str(token, "a") {
        Some(KeyCode::KeyA)
    } else if chars_eq_str(token, "b") {
        Some(KeyCode::KeyB)
    } else if chars_eq_str(token, "c") {
        Some(KeyCode::KeyC)
    } else if chars_eq_str(token, "d") {
        Some(KeyCode::KeyD)
    } else if chars_eq_str(token, "e") {
        Some(KeyCode::KeyE)
    } else if chars_eq_str(token, "f") {
        Some(KeyCode::KeyF)
    } else if chars_eq_str(token, "g") {
        Some(KeyCode::KeyG)
    } else if chars_eq_str(token, "h") {
        Some(KeyCode::KeyH)
    } else if chars_eq_str(token, "i") {
        Some(KeyCode::KeyI)
    } else if chars_eq_str(token, "j") {
        Some(KeyCode::KeyJ)
    } else if chars_eq_str(token, "k") {
        Some(KeyCode::KeyK)
    } else if chars_eq_str(token, "l") {
        Some(KeyCode::KeyL)
    } else if chars_eq_str(token, "m") {
        Some(KeyCode::KeyM)
    } else if chars_eq_str(token, "n") {
        Some(KeyCode::KeyN)
    } else if chars_eq_str(token, "o") {
        Some(KeyCode::KeyO)
    } else if chars_eq_str(token, "p") {
        Some(KeyCode::KeyP)
    } else if chars_eq_str(token, "q") {
        Some(KeyCode::KeyQ)
    } else if chars_eq_str(token, "r") {
        Some(KeyCode::KeyR)
    } else if chars_eq_str(token, "s") {
        Some(KeyCode::KeyS)
    } else if chars_eq_str(token, "t") {
        Some(KeyCode::KeyT)
    } else if chars_eq_str(token, "u") {
        Some(KeyCode::KeyU)
    } else if chars_eq_str(token, "v") {
        Some(KeyCode::KeyV)
    } else if chars_eq_str(token, "w") {
        Some(KeyCode::KeyW)
    } else if chars_eq_str(token, "x") {
        Some(KeyCode::KeyX)
    } else if chars_eq_str(token, "y") {
        Some(KeyCode::KeyY)
    } else if chars_eq_str(token, "z") {
        Some(KeyCode::KeyZ)
    } else if chars_eq_str(token, "0") {
        Some(KeyCode::Digit0)
    } else if chars_eq_str(token, "1") {
        Some(KeyCode::Digit1)
    } else if chars_eq_str(token, "2") {
        Some(KeyCode::Digit2)
    } else if chars_eq_str(token, "3") {
        Some(KeyCode::Digit3)
    } else if chars_eq_str(token, "4") {
        Some(KeyCode::Digit4)
    } else if chars_eq_str(token, "5") {
        Some(KeyCode::Digit5)
    } else if chars_eq_str(token, "6") {
        Some(KeyCode::Digit6)
    } else if chars_eq_str(token, "7") {
        Some(KeyCode::Digit7)
    } else if chars_eq_str(token, "8") {
        Some(KeyCode::Digit8)
    } else if chars_eq_str(token, "9") {
        Some(KeyCode::Digit9)
    } else if chars_eq_str(token, "f1") {
        Some(KeyCode::F1)
    } else if chars_eq_str(token, "f2") {
        Some(KeyCode::F2)
    } else if chars_eq_str(token, "f3") {
        Some(KeyCode::F3)
    } else if chars_eq_str(token, "f4") {
        Some(KeyCode::F4)
    } else if chars_eq_str(token, "f5") {
        Some(KeyCode::F5)
    } else if chars_eq_str(token, "f6") {
        Some(KeyCode::F6)
    } else if chars_eq_str(token, "f7") {
        Some(KeyCode::F7)
    } else if chars_eq_str(token, "f8") {
        Some(KeyCode::F8)
    } else if chars_eq_str(token, "f9") {
        Some(KeyCode::F9)
    } else if chars_eq_str(token, "f10") {
        Some(KeyCode::F10)
    } else if chars_eq_str(token, "f11") {
        Some(KeyCode::F11)
    } else if chars_eq_str(token, "f12") {
        Some(KeyCode::F12)
    } else if chars_eq_str(token, "]") || chars_eq_str(token, "bracketright") {
        Some(KeyCode::BracketRight)
    } else if chars_eq_str(token, "[") || chars_eq_str(token, "bracketleft") {
        Some(KeyCode::BracketLeft)
    } else if chars_eq_str(token, ";") || chars_eq_str(token, "semicolon") {
        Some(KeyCode::Semicolon)
    } else if chars_eq_str(token, "'") || chars_eq_str(token, "quote") {
        Some(KeyCode::Quote)
    } else if chars_eq_str(token, ",") || chars_eq_str(token, "comma") {
        Some(KeyCode::Comma)
    } else if chars_eq_str(token, ".") || chars_eq_str(token, "period") {
        Some(KeyCode::Period)
    } else if chars_eq_str(token, "/") || chars_eq_str(token, "slash") {
        Some(KeyCode::Slash)
    } else if chars_eq_str(token, "\\") || chars_eq_str(token, "backslash") {
        Some(KeyCode::Backslash)
    } else if chars_eq_str(token, "-") || chars_eq_str(token, "minus") {
        Some(KeyCode::Minus)
    } else if chars_eq_str(token, "=") || chars_eq_str(token, "equal") {
        Some(KeyCode::Equal)
    } else if chars_eq_str(token, "space") {
        Some(KeyCode::Space)
    } else if chars_eq_str(token, "enter") || chars_eq_str(token, "return") {
        Some(KeyCode::Enter)
    } else if chars_eq_str(token, "tab") {
        Some(KeyCode::Tab)
    } else if chars_eq_str(token, "backspace") {
        Some(KeyCode::Backspace)
    } else if chars_eq_str(token, "delete") {
        Some(KeyCode::Delete)
    } else if chars_eq_str(token, "escape") || chars_eq_str(token, "esc") {
        Some(KeyCode::Escape)
    } else {
        None
    }
}

/// The modifier that a token names; the token is taken as it stands, lower
/// case and trimmed.
pub fn parse_modifier_token(token: &str) -> (r: Option<Modifier>)
    ensures
        r == modifier_of_token(token@),
{
    let chars = to_chars(token);
    modifier_of_chars(&chars)
}

/// The key that a token names; the token is taken as it stands, lower case
/// and trimmed.
pub fn parse_key_token(token: &str) -> (r: Option<KeyCode>)
    ensures
        r == key_of_token(token@),
{
    let chars = to_chars(token);
    key_of_chars(&chars)
}

fn lowercase_chars(token: &Vec<char>) -> (r: Vec<char>)
    ensures
        r@ == lowercase_of(token@),
{
    let s = from_chars(token);
    let lower = lowercase(s.as_str());
    to_chars(lower.as_str())
}

// ---------------------------------------------------------------------------
// Parsing
// ---------------------------------------------------------------------------

/// Each text of `parts` without its surrounding white space.
pub open spec fn trimmed(parts: Seq<Seq<char>>) -> Seq<Seq<char>> {
    parts.map_values(|p: Seq<char>| trim(p))
}

/// Each text of `parts` in lower case.
pub open spec fn lowered(parts: Seq<Seq<char>>) -> Seq<Seq<char>> {
    parts.map_values(|p: Seq<char>| lowercase_of(p))
}

/// The modifiers that a run of tokens names. `names` holds the tokens as they
/// are compared, `shown` the same tokens as they are reported. The result is
/// the first token that names no modifier, if there is one. When `lenient`,
/// empty tokens are passed over.
pub open spec fn fold_modifiers(
    shown: Seq<Seq<char>>,
    names: Seq<Seq<char>>,
    lenient: bool,
) -> Result<Modifiers, Seq<char>>
    recommends
        shown.len() == names.len(),
    decreases names.len(),
{
    if names.len() == 0 {
        Ok(Modifiers::none())
    } else {
        match fold_modifiers(shown.drop_last(), names.drop_last(), lenient) {
            Err(t) => Err(t),
            Ok(m) => if lenient && names.last().len() == 0 {
                Ok(m)
            } else {
                match modifier_of_token(names.last()) {
                    Some(x) => Ok(m.with(x)),
                    None => Err(shown.last()),
                }
            },
        }
    }
}

/// Once a prefix of the tokens fails, the whole run fails at the same token.
proof fn lemma_fold_error_extends(
    shown: Seq<Seq<char>>,
    names: Seq<Seq<char>>,
    lenient: bool,
    k: int,
)
    requires
        shown.len() == names.len(),
        0 <= k <= names.len(),
        fold_modifiers(shown.subrange(0, k), names.subrange(0, k), lenient) is Err,
    ensures
        fold_modifiers(shown, names, lenient) == fold_modifiers(
            shown.subrange(0, k),
            names.subrange(0, k),
            lenient,
        ),
    decreases names.len() - k,
{
    if k == names.len() {
        assert(shown.subrange(0, k) =~= shown);
        assert(names.subrange(0, k) =~= names);
    } else {
        assert(shown.drop_last().subrange(0, k) =~= shown.subrange(0, k));
        assert(names.drop_last().subrange(0, k) =~= names.subrange(0, k));
        lemma_fold_error_extends(shown.drop_last(), names.drop_last(), lenient, k);
    }
}

/// The tokens that `parts` holds up to `count`, trimmed.
pub open spec fn shown_tokens(parts: Seq<Vec<char>>, count: int) -> Seq<Seq<char>> {
    trimmed(views(parts)).subrange(0, count)
}

/// The tokens as they are compared: in lower case, or as they stand.
pub open spec fn compared_tokens(shown: Seq<Seq<char>>, lower_each: bool) -> Seq<Seq<char>> {
    if lower_each {
        lowered(shown)
    } else {
        shown
    }
}

fn fold_modifier_tokens(
    parts: &Vec<Vec<char>>,
    count: usize,
    lower_each: bool,
    lenient: bool,
) -> (r: Result<Modifiers, Vec<char>>)
    requires
        count <= parts.len(),
    ensures
        match fold_modifiers(
            shown_tokens(parts@, count as int),
            compared_tokens(shown_tokens(parts@, count as int), lower_each),
            lenient,
        ) {
            Ok(m) => r == Ok::<Modifiers, Vec<char>>(m),
            Err(t) => r matches Err(v) && v@ == t,
        },
{
    let ghost shown = shown_tokens(parts@, count as int);
    let ghost names = compared_tokens(shown, lower_each);
    let mut mods = Modifiers::empty();
    let mut i: usize = 0;
    while i < count
        invariant
            i <= count <= parts.len(),
            shown == shown_tokens(parts@, count as int),
            names == compared_tokens(shown, lower_each),
            shown.len() == count,
            names.len() == count,
            fold_modifiers(shown.subrange(0, i as int), names.subrange(0, i as int), lenient)
                == Ok::<Modifiers, Seq<char>>(mods),
        decreases count - i,
    {
        let token = trim_chars(&parts[i]);
        let name = if lower_each {
            lowercase_chars(&token)
        } else {
            slice_chars(&token, 0, token.len())
        };
        proof {
            assert(token@ == shown[i as int]);
            assert(token@.subrange(0, token@.len() as int) =~= token@);
            assert(name@ == names[i as int]);
            assert(shown.subrange(0, i + 1).drop_last() =~= shown.subrange(0, i as int));
            assert(names.subrange(0, i + 1).drop_last() =~= names.subrange(0, i as int));
            assert(shown.subrange(0, i + 1).last() == shown[i as int]);
            assert(names.subrange(0, i + 1).last() == names[i as int]);
        }
        if !(lenient && name.len() == 0) {
            match modifier_of_chars(&name) {
                Some(m) => {
                    mods.insert(m);
                },
                None => {
                    proof {
                        lemma_fold_error_extends(shown, names, lenient, i + 1);
                    }
                    return Err(token);
                },
            }
        }
        i += 1;
    }
    assert(shown.subrange(0, count as int) =~= shown);
    assert(names.subrange(0, count as int) =~= names);
    Ok(mods)
}

/// The report of a modifier token that names no modifier.
pub open spec fn unknown_modifier(token: Seq<char>) -> Seq<char> {
    "Unknown modifier: "@ + token
}

/// The report of a key token that names no key.
pub open spec fn unknown_key(token: Seq<char>) -> Seq<char> {
    "Unknown key: "@ + token
}

/// The report of a key name that is not a key code.
pub open spec fn unknown_key_code(name: Seq<char>) -> Seq<char> {
    "Unknown key code: "@ + name + ". See global-hotkey docs for valid codes."@
}

/// The chord that a text such as `Cmd+Shift+G` names, or the report of the
/// first token that names nothing. The tokens stand between `+` signs; the
/// last one is the key, the others are modifiers, looked at in order.
pub open spec fn parse_chord(text: Seq<char>) -> Result<Chord, Seq<char>> {
    let tokens = trimmed(split(text, '+'));
    let front = tokens.drop_last();
    match fold_modifiers(front, lowered(front), false) {
        Err(t) => Err(unknown_modifier(t)),
        Ok(m) => match key_of_token(lowercase_of(tokens.last())) {
            Some(k) => Ok(Chord { modifiers: m, key: k }),
            None => Err(unknown_key(tokens.last())),
        },
    }
}

fn report(prefix: &str, token: &Vec<char>, suffix: &str) -> (r: String)
    ensures
        r@ == prefix@ + token@ + suffix@,
{
    let mut msg = to_chars(prefix);
    append_chars(&mut msg, token);
    append_str(&mut msg, suffix);
    from_chars(&msg)
}

/// Reads a chord such as `Cmd+Shift+G`.
pub fn parse_hotkey_string(hotkey_str: &str) -> (r: Result<Chord, HotkeyError>)
    ensures
        match parse_chord(hotkey_str@) {
            Ok(c) => r == Ok::<Chord, HotkeyError>(c),
            Err(msg) => r matches Err(HotkeyError::InvalidSpec(d)) && d@ == msg,
        },
{
    let chars = to_chars(hotkey_str);
    let parts = split_chars(&chars, '+');
    let n: usize = parts.len();
    let ghost tokens = trimmed(views(parts@));
    proof {
        assert(tokens.drop_last() =~= shown_tokens(parts@, n - 1));
    }
    match fold_modifier_tokens(&parts, n - 1, true, false) {
        Err(token) => {
            let msg = report("Unknown modifier: ", &token, "");
            proof {
                reveal_strlit("");
                assert(msg@ =~= unknown_modifier(token@));
            }
            Err(HotkeyError::InvalidSpec(msg))
        },
        Ok(modifiers) => {
            let token = trim_chars(&parts[n - 1]);
            let name = lowercase_chars(&token);
            assert(token@ == tokens.last());
            match key_of_chars(&name) {
                Some(key) => Ok(Chord { modifiers, key }),
                None => {
                    let msg = report("Unknown key: ", &token, "");
                    proof {
                        reveal_strlit("");
                        assert(msg@ =~= unknown_key(token@));
                    }
                    Err(HotkeyError::InvalidSpec(msg))
                },
            }
        },
    }
}

/// The modifiers that a text such as `cmd+shift` names, or the report of the
/// first token that names none. The text is put in lower case as a whole;
/// empty tokens are passed over.
pub open spec fn parse_modifier_list(text: Seq<char>) -> Result<Modifiers, Seq<char>> {
    let tokens = trimmed(split(lowercase_of(text), '+'));
    match fold_modifiers(tokens, tokens, true) {
        Err(t) => Err(unknown_modifier(t)),
        Ok(m) => Ok(m),
    }
}

/// Reads a list of modifiers such as `cmd+shift`.
pub fn parse_modifiers(modifiers_str: &str) -> (r: Result<Modifiers, HotkeyError>)
    ensures
        match parse_modifier_list(modifiers_str@) {
            Ok(m) => r == Ok::<Modifiers, HotkeyError>(m),
            Err(msg) => r matches Err(HotkeyError::InvalidSpec(d)) && d@ == msg,
        },
{
    let lower = lowercase(modifiers_str);
    let chars = to_chars(lower.as_str());
    let parts = split_chars(&chars, '+');
    let n: usize = parts.len();
    proof {
        assert(trimmed(views(parts@)) =~= shown_tokens(parts@, n as int));
    }
    match fold_modifier_tokens(&parts, n, false, true) {
        Err(token) => {
            let msg = report("Unknown modifier: ", &token, "");
            proof {
                reveal_strlit("");
                assert(msg@ =~= unknown_modifier(token@));
            }
            Err(HotkeyError::InvalidSpec(msg))
        },
        Ok(modifiers) => Ok(modifiers),
    }
}

/// The key that a key-code name stands for. The names are those of the
/// platform, written exactly.
pub open spec fn key_code_named(name: Seq<char>) -> Option<KeyCode> {
    if name == "BracketRight"@ {
        Some(KeyCode::BracketRight)
    } else if name == "BracketLeft"@ {
        Some(KeyCode::BracketLeft)
    } else if name == "KeyP"@ {
        Some(KeyCode::KeyP)
    } else if name == "KeyK"@ {
        Some(KeyCode::KeyK)
    } else if name == "Semicolon"@ {
        Some(KeyCode::Semicolon)
    } else if name == "Space"@ {
        Some(KeyCode::Space)
    } else if name == "Enter"@ {
        Some(KeyCode::Enter)
    } else if name == "Backslash"@ {
        Some(KeyCode::Backslash)
    } else {
        None
    }
}

/// Reads a key-code name such as `BracketRight` or `KeyP`.
pub fn parse_key_code(key_str: &str) -> (r: Result<KeyCode, HotkeyError>)
    ensures
        match key_code_named(key_str@) {
            Some(k) => r == Ok::<KeyCode, HotkeyError>(k),
            None => r matches Err(HotkeyError::InvalidSpec(d)) && d@ == unknown_key_code(
                key_str@,
            ),
        },
{
    let name = to_chars(key_str);
    if chars_eq_str(&name, "BracketRight") {
        Ok(KeyCode::BracketRight)
    } else if chars_eq_str(&name, "BracketLeft") {
        Ok(KeyCode::BracketLeft)
    } else if chars_eq_str(&name, "KeyP") {
        Ok(KeyCode::KeyP)
    } else if chars_eq_str(&name, "KeyK") {
        Ok(KeyCode::KeyK)
    } else if chars_eq_str(&name, "Semicolon") {
        Ok(KeyCode::Semicolon)
    } else if chars_eq_str(&name, "Space") {
        Ok(KeyCode::Space)
    } else if chars_eq_str(&name, "Enter") {
        Ok(KeyCode::Enter)
    } else if chars_eq_str(&name, "Backslash") {
        Ok(KeyCode::Backslash)
    } else {
        Err(
            HotkeyError::InvalidSpec(
                report("Unknown key code: ", &name, ". See global-hotkey docs for valid codes."),
            ),
        )
    }
}

// ---------------------------------------------------------------------------
// Description
// ---------------------------------------------------------------------------

/// How a modifier token is shown: by the modifier's display name if it names
/// one, else as it stands.
pub open spec fn display_modifier(token: Seq<char>) -> Seq<char> {
    match modifier_of_token(lowercase_of(token)) {
        Some(Modifier::Super) => "Cmd"@,
        Some(Modifier::Control) => "Ctrl"@,
        Some(Modifier::Alt) => "Alt"@,
        Some(Modifier::Shift) => "Shift"@,
        None => token,
    }
}

/// How a key-code name is shown: punctuation keys by their sign, letter keys
/// without the leading `Key`, other names as they stand.
pub open spec fn display_key(name: Seq<char>) -> Seq<char> {
    if name == "BracketRight"@ {
        "]"@
    } else if name == "BracketLeft"@ {
        "["@
    } else if name == "Backslash"@ {
        "\\"@
    } else if name == "Semicolon"@ {
        ";"@
    } else if name == "Space"@ {
        "Space"@
    } else if name == "Enter"@ {
        "Enter"@
    } else if starts_with(name, "Key"@) {
        name.subrange("Key"@.len() as int, name.len() as int)
    } else {
        name
    }
}

/// The modifier tokens of `modifiers` as they are shown.
pub open spec fn displayed_modifiers(modifiers: Seq<char>) -> Seq<Seq<char>> {
    trimmed(split(modifiers, '+')).map_values(|t: Seq<char>| display_modifier(t))
}

/// The description of a hotkey: its modifiers as shown, joined by `+`, then
/// `+` and its key as shown.
pub open spec fn describe(modifiers: Seq<char>, key: Seq<char>) -> Seq<char> {
    join(displayed_modifiers(modifiers), "+"@) + "+"@ + display_key(key)
}

fn push_display_key(out: &mut Vec<char>, key_str: &str)
    ensures
        final(out)@ == old(out)@ + display_key(key_str@),
{
    let name = to_chars(key_str);
    let key_prefix = to_chars("Key");
    if chars_eq_str(&name, "BracketRight") {
        append_str(out, "]");
    } else if chars_eq_str(&name, "BracketLeft") {
        append_str(out, "[");
    } else if chars_eq_str(&name, "Backslash") {
        append_str(out, "\\");
    } else if chars_eq_str(&name, "Semicolon") {
        append_str(out, ";");
    } else if chars_eq_str(&name, "Space") {
        append_str(out, "Space");
    } else if chars_eq_str(&name, "Enter") {
        append_str(out, "Enter");
    } else if starts_with_chars(&name, &key_prefix) {
        let rest = slice_chars(&name, key_prefix.len(), name.len());
        append_chars(out, &rest);
    } else {
        append_chars(out, &name);
    }
}

/// Describes a hotkey given as a modifier list such as `cmd+shift` and a
/// key-code name such as `BracketRight`: here `Cmd+Shift+]`.
pub fn describe_hotkey(modifiers_str: &str, key_str: &str) -> (r: String)
    ensures
        r@ == describe(modifiers_str@, key_str@),
{
    let chars = to_chars(modifiers_str);
    let parts = split_chars(&chars, '+');
    let ghost shown = displayed_modifiers(modifiers_str@);
    let mut out: Vec<char> = Vec::new();
    let mut i: usize = 0;
    while i < parts.len()
        invariant
            i <= parts.len(),
            views(parts@) == split(modifiers_str@, '+'),
            shown == displayed_modifiers(modifiers_str@),
            shown.len() == parts.len(),
            out@ == join(shown.subrange(0, i as int), "+"@),
        decreases parts.len() - i,
    {
        let ghost before = out@;
        let token = trim_chars(&parts[i]);
        let name = lowercase_chars(&token);
        if i > 0 {
            append_str(&mut out, "+");
        }
        match modifier_of_chars(&name) {
            Some(Modifier::Super) => {
                append_str(&mut out, "Cmd");
            },
            Some(Modifier::Control) => {
                append_str(&mut out, "Ctrl");
            },
            Some(Modifier::Alt) => {
                append_str(&mut out, "Alt");
            },
            Some(Modifier::Shift) => {
                append_str(&mut out, "Shift");
            },
            None => {
                append_chars(&mut out, &token);
            },
        }
        proof {
            let next = shown.subrange(0, i + 1);
            assert(token@ == trimmed(views(parts@))[i as int]);
            assert(next.last() == display_modifier(token@));
            assert(next.drop_last() =~= shown.subrange(0, i as int));
            if i == 0 {
                assert(before =~= Seq::<char>::empty());
                assert(out@ =~= next[0]);
            } else {
                assert(out@ =~= before + "+"@ + next.last());
            }
        }
        i += 1;
    }
    assert(shown.subrange(0, parts.len() as int) =~= shown);
    append_str(&mut out, "+");
    push_display_key(&mut out, key_str);
    from_chars(&out)
}

// ---------------------------------------------------------------------------
// Identifiers
// ---------------------------------------------------------------------------

/// The identifier under which the platform reports presses of the hotkey made
/// of the given modifiers and of the key with the given name, `None` where the
/// platform knows no key of that name.
pub uninterp spec fn hotkey_id_of(
    super_key: bool,
    control: bool,
    alt: bool,
    shift: bool,
    code: Seq<char>,
) -> Option<u32>;

/// `HotKey::new` and `HotKey::id` of the platform's hotkey crate: builds the
/// hotkey from the modifiers and from the key that `Code::from_str` finds
/// under the name, and returns its identifier; `None` where `Code::from_str`
/// knows no key of that name. The identifier depends on nothing else.
#[verifier::external_body]
fn platform_hotkey_id(super_key: bool, control: bool, alt: bool, shift: bool, code: &str) -> (r:
    Option<u32>)
    ensures
        r == hotkey_id_of(super_key, control, alt, shift, code@),
{
    let mut mods = global_hotkey::hotkey::Modifiers::empty();
    mods.set(global_hotkey::hotkey::Modifiers::META, super_key);
    mods.set(global_hotkey::hotkey::Modifiers::CONTROL, control);
    mods.set(global_hotkey::hotkey::Modifiers::ALT, alt);
    mods.set(global_hotkey::hotkey::Modifiers::SHIFT, shift);
    match code.parse::<Code>() {
        Ok(key) => Some(HotKey::new(Some(mods), key).id()),
        Err(_) => None,
    }
}

impl Chord {
    /// The identifier under which the platform reports presses of this chord.
    pub open spec fn platform_id(self) -> Option<u32> {
        hotkey_id_of(
            self.modifiers.super_key,
            self.modifiers.control,
            self.modifiers.alt,
            self.modifiers.shift,
            code_name(self.key),
        )
    }

    /// The identifier under which the platform reports presses of this chord,
    /// `None` where the platform does not know the key.
    pub fn id(&self) -> (r: Option<u32>)
        ensures
            r == self.platform_id(),
    {
        platform_hotkey_id(
            self.modifiers.super_key,
            self.modifiers.control,
            self.modifiers.alt,
            self.modifiers.shift,
            self.key.name(),
        )
    }
}

// ---------------------------------------------------------------------------
// A single configured hotkey
// ---------------------------------------------------------------------------

/// The chord that a modifier list and a key-code name give, or the report of
/// what is wrong with the first of them that is.
pub open spec fn configured_chord(modifiers: Seq<char>, key: Seq<char>) -> Result<Chord, Seq<char>> {
    match parse_modifier_list(modifiers) {
        Err(msg) => Err(msg),
        Ok(m) => match key_code_named(key) {
            Some(k) => Ok(Chord { modifiers: m, key: k }),
            None => Err(unknown_key_code(key)),
        },
    }
}

/// The hotkey of a fresh installation: command, shift and `]` on macOS,
/// control, shift and `]` elsewhere.
pub open spec fn default_chord(macos: bool) -> Chord {
    Chord {
        modifiers: Modifiers { super_key: macos, control: !macos, alt: false, shift: true },
        key: KeyCode::BracketRight,
    }
}

impl Chord {
    /// The chord of a modifier list such as `cmd+shift` and a key-code name
    /// such as `BracketRight`.
    pub fn from_config(modifiers_str: &str, key_str: &str) -> (r: Result<Chord, HotkeyError>)
        ensures
            match configured_chord(modifiers_str@, key_str@) {
                Ok(c) => r == Ok::<Chord, HotkeyError>(c),
                Err(msg) => r matches Err(HotkeyError::InvalidSpec(d)) && d@ == msg,
            },
    {
        let modifiers = match parse_modifiers(modifiers_str) {
            Ok(m) => m,
            Err(e) => {
                return Err(e);
            },
        };
        let key = match parse_key_code(key_str) {
            Ok(k) => k,
            Err(e) => {
                return Err(e);
            },
        };
        Ok(Chord { modifiers, key })
    }

    /// The hotkey of a fresh installation.
    pub fn default_for(macos: bool) -> (r: Chord)
        ensures
            r == default_chord(macos),
    {
        Chord {
            modifiers: Modifiers { super_key: macos, control: !macos, alt: false, shift: true },
            key: KeyCode::BracketRight,
        }
    }
}

/// The description of the hotkey of a fresh installation.
pub fn default_hotkey_description(macos: bool) -> (r: String)
    ensures
        r@ == if macos {
            "Cmd+Shift+]"@
        } else {
            "Ctrl+Shift+]"@
        },
{
    if macos {
        from_chars(&to_chars("Cmd+Shift+]"))
    } else {
        from_chars(&to_chars("Ctrl+Shift+]"))
    }
}

} // verus!
