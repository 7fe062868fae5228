//! The rules for text taken from the clipboard.
//!
//! The host reads the clipboard; these functions decide what its answer
//! means: text that is empty or white space only is no input, and text over
//! the size limit is refused.

use crate::text::{
    append_decimal, append_str, contains, contains_chars, decimal, from_chars, is_blank,
    is_blank_chars, to_chars,
};
use vstd::prelude::*;

verus! {

/// The most bytes of clipboard text that are accepted.
pub const MAX_CLIPBOARD_SIZE: usize = 100000;

/// What can go wrong with the clipboard.
#[derive(Debug)]
pub enum ClipboardError {
    /// The clipboard could not be reached, for the reason given.
    AccessError(String),
    /// The clipboard holds no text, or white space only.
    Empty,
    /// The clipboard holds something that is not text.
    NonTextContent,
    /// The text has this many bytes, which is over the limit.
    TooLarge(usize),
}

/// The number of bytes that a text takes in UTF-8, as the length of a string
/// counts them.
pub open spec fn byte_len(text: Seq<char>) -> usize {
    vstd::utf8::encode_utf8(text).len() as usize
}

/// The host's words about a failed read say that there was nothing to read:
/// they hold `empty` or `unavailable`.
pub open spec fn says_empty(detail: Seq<char>) -> bool {
    contains(detail, "empty"@) || contains(detail, "unavailable"@)
}

/// What a failed read means, from the host's words about it.
pub open spec fn classified(detail: String) -> ClipboardError {
    if says_empty(detail@) {
        ClipboardError::Empty
    } else {
        ClipboardError::AccessError(detail)
    }
}

/// Clipboard text as input: text that holds more than white space and no
/// more than 100,000 bytes is accepted as it is.
pub open spec fn checked(text: String) -> Result<String, ClipboardError> {
    if is_blank(text@) {
        Err(ClipboardError::Empty)
    } else if byte_len(text@) > 100000 {
        Err(ClipboardError::TooLarge(byte_len(text@)))
    } else {
        Ok(text)
    }
}

/// What a read of the clipboard gives as input.
pub open spec fn accepted(read: Result<String, String>) -> Result<String, ClipboardError> {
    match read {
        Ok(text) => checked(text),
        Err(detail) => Err(classified(detail)),
    }
}

/// Turns the host's words about a failed read into an error.
pub fn classify_read_failure(detail: String) -> (e: ClipboardError)
    ensures
        e == classified(detail),
{
    let chars = to_chars(detail.as_str());
    let empty = to_chars("empty");
    let unavailable = to_chars("unavailable");
    if contains_chars(&chars, &empty) || contains_chars(&chars, &unavailable) {
        ClipboardError::Empty
    } else {
        ClipboardError::AccessError(detail)
    }
}

/// Accepts clipboard text as input: it must hold more than white space, and
/// no more than 100,000 bytes.
pub fn check_clipboard_text(text: String) -> (r: Result<String, ClipboardError>)
    ensures
        r == checked(text),
{
    let chars = to_chars(text.as_str());
    if is_blank_chars(&chars) {
        return Err(ClipboardError::Empty);
    }
    let size: usize = text.as_str().len();
    if size > MAX_CLIPBOARD_SIZE {
        return Err(ClipboardError::TooLarge(size));
    }
    Ok(text)
}

/// What a read of the clipboard gives as input. `read` is the host's answer:
/// the text, or its words about the failure.
pub fn accept_clipboard(read: Result<String, String>) -> (r: Result<String, ClipboardError>)
    ensures
        r == accepted(read),
{
    match read {
        Ok(text) => check_clipboard_text(text),
        Err(detail) => Err(classify_read_failure(detail)),
    }
}

/// The words for a clipboard error.
pub open spec fn clipboard_message(e: ClipboardError) -> Seq<char> {
    match e {
        ClipboardError::AccessError(d) => "Clipboard access error: "@ + d@,
        ClipboardError::Empty => "Clipboard is empty"@,
        ClipboardError::NonTextContent =>
            "Clipboard contains non-text content (images, files, etc.)"@,
        ClipboardError::TooLarge(n) => "Clipboard text too large ("@ + decimal(n as nat)
            + " bytes, max "@ + decimal(100000) + " bytes)"@,
    }
}

impl ClipboardError {
    /// The words for this error.
    pub fn message(&self) -> (r: String)
        ensures
            r@ == clipboard_message(*self),
    {
        let mut out: Vec<char> = Vec::new();
        match self {
            ClipboardError::AccessError(d) => {
                append_str(&mut out, "Clipboard access error: ");
                append_str(&mut out, d.as_str());
            },
            ClipboardError::Empty => {
                append_str(&mut out, "Clipboard is empty");
            },
            ClipboardError::NonTextContent => {
                append_str(&mut out, "Clipboard contains non-text content (images, files, etc.)");
            },
            ClipboardError::TooLarge(n) => {
                append_str(&mut out, "Clipboard text too large (");
                append_decimal(&mut out, *n);
                append_str(&mut out, " bytes, max ");
                append_decimal(&mut out, MAX_CLIPBOARD_SIZE);
                append_str(&mut out, " bytes)");
            },
        }
        assert(out@ =~= clipboard_message(*self));
        from_chars(&out)
    }
}

} // verus!
