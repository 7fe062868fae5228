//! The paste step: which keys to press, and what can go wrong.

use crate::clipboard::{clipboard_message, ClipboardError};
use crate::text::{append_str, from_chars};
use vstd::prelude::*;

verus! {

/// What can go wrong when the result is pasted.
#[derive(Debug)]
pub enum PasteError {
    /// The result could not be put in the clipboard.
    ClipboardError(ClipboardError),
    /// The keystroke could not be synthesized.
    SimulationError(String),
    /// The application may not send keystrokes.
    PermissionsError,
}

/// A key of the paste keystroke.
#[derive(Debug, Clone, Copy, PartialEq, Eq, Structural)]
pub enum PasteKey {
    /// The command key.
    Meta,
    /// The control key.
    Control,
    /// The key of a character.
    Unicode(char),
}

/// What is done to a key.
#[derive(Debug, Clone, Copy, PartialEq, Eq, Structural)]
pub enum KeyDirection {
    Press,
    Release,
    Click,
}

/// One step of a keystroke.
#[derive(Debug, Clone, Copy, PartialEq, Eq, Structural)]
pub struct KeyAction {
    pub key: PasteKey,
    pub direction: KeyDirection,
}

/// The modifier of the paste keystroke: command on macOS, control elsewhere.
pub open spec fn paste_modifier(macos: bool) -> PasteKey {
    if macos {
        PasteKey::Meta
    } else {
        PasteKey::Control
    }
}

/// The paste keystroke: the modifier down, `v` clicked, the modifier up.
pub open spec fn paste_sequence(macos: bool) -> Seq<KeyAction> {
    seq![
        KeyAction { key: paste_modifier(macos), direction: KeyDirection::Press },
        KeyAction { key: PasteKey::Unicode('v'), direction: KeyDirection::Click },
        KeyAction { key: paste_modifier(macos), direction: KeyDirection::Release },
    ]
}

/// The steps of the paste keystroke for the platform, in order.
pub fn paste_keystrokes(macos: bool) -> (r: Vec<KeyAction>)
    ensures
        r@ == paste_sequence(macos),
{
    let modifier = if macos {
        PasteKey::Meta
    } else {
        PasteKey::Control
    };
    let mut r: Vec<KeyAction> = Vec::new();
    r.push(KeyAction { key: modifier, direction: KeyDirection::Press });
    r.push(KeyAction { key: PasteKey::Unicode('v'), direction: KeyDirection::Click });
    r.push(KeyAction { key: modifier, direction: KeyDirection::Release });
    assert(r@ =~= paste_sequence(macos));
    r
}

/// Whether the application may send keystrokes. This cannot be found out
/// ahead of the first paste, so the answer is always yes.
pub fn check_permissions() -> (b: bool)
    ensures
        b,
{
    true
}

/// The words for a paste error.
pub open spec fn paste_message(e: PasteError) -> Seq<char> {
    match e {
        PasteError::ClipboardError(c) => "Clipboard error: "@ + clipboard_message(c),
        PasteError::SimulationError(d) => "Paste simulation error: "@ + d@,
        PasteError::PermissionsError =>
            "Accessibility permissions required. Please enable in System Settings."@,
    }
}

impl PasteError {
    /// The words for this error.
    pub fn message(&self) -> (r: String)
        ensures
            r@ == paste_message(*self),
    {
        let mut out: Vec<char> = Vec::new();
        match self {
            PasteError::ClipboardError(c) => {
                append_str(&mut out, "Clipboard error: ");
                append_str(&mut out, c.message().as_str());
            },
            PasteError::SimulationError(d) => {
                append_str(&mut out, "Paste simulation error: ");
                append_str(&mut out, d.as_str());
            },
            PasteError::PermissionsError => {
                append_str(
                    &mut out,
                    "Accessibility permissions required. Please enable in System Settings.",
                );
            },
        }
        assert(out@ =~= paste_message(*self));
        from_chars(&out)
    }
}

} // verus!
