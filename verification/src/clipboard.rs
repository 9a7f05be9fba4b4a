//! The bridge between the register of the buffer and the clipboard of the
//! operating system. The editor never touches that clipboard itself: a
//! command ends with a request that says what its caller has to do with it,
//! and a text that was read from it is handed back to the editor.

use vstd::prelude::*;

verus! {

/// The three clipboard commands.
#[derive(Clone, Copy, Debug, PartialEq, Eq, Structural)]
pub enum ClipboardOperation {
    Copy,
    Cut,
    Paste,
}

/// What remains to be done with the clipboard of the operating system once
/// the editor has handled a key.
#[derive(Debug, PartialEq, Eq)]
pub enum ClipboardRequest {
    /// Nothing.
    Nothing,
    /// Put this text on the clipboard.
    SetText(String),
    /// Read the clipboard and hand the text, or the failure, to the editor.
    GetText,
}

/// A request, with its text as a sequence of characters.
pub enum Request {
    Nothing,
    SetText(Seq<char>),
    GetText,
}

impl View for ClipboardRequest {
    type V = Request;

    open spec fn view(&self) -> Request {
        match self {
            ClipboardRequest::Nothing => Request::Nothing,
            ClipboardRequest::SetText(text) => Request::SetText(text@),
            ClipboardRequest::GetText => Request::GetText,
        }
    }
}

} // verus!
