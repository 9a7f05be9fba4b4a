//! The errors that the editor reports. None is fatal: each leaves the editor
//! in a state that can go on, and each has a message to show.

use vstd::prelude::*;
use vstd::string::StringExecFns;
use crate::text::{decimal, decimal_exec, string_of};

verus! {

/// What the message of a clipboard failure begins with; the details that the
/// operating system gave follow.
pub const CLIPBOARD_ERROR_PREFIX: &'static str =
    "Error while communicating with the operating system clipboard.\nError Details: ";

/// The message for a text that the buffer does not take.
pub const PASTE_REJECTED_MESSAGE: &'static str = "Text can't be pasted into editor";

/// What the message for an unknown entry begins with; the identifier
/// follows.
pub const INVALID_ENTRY_PREFIX: &'static str = "There is no entry with the id ";

/// An error of the editor.
#[derive(Debug, PartialEq, Eq)]
pub enum EditorError {
    /// The clipboard of the operating system could not be reached; the
    /// field holds what the operating system said.
    ClipboardAccess(String),
    /// The text to paste holds nothing that the buffer can take.
    PasteRejected,
    /// The store has no entry with this identifier.
    InvalidEntryReference(u32),
}

/// An error of the editor, with its text as a sequence of characters.
pub enum EditorErrorView {
    ClipboardAccess(Seq<char>),
    PasteRejected,
    InvalidEntryReference(u32),
}

impl View for EditorError {
    type V = EditorErrorView;

    open spec fn view(&self) -> EditorErrorView {
        match self {
            EditorError::ClipboardAccess(details) => EditorErrorView::ClipboardAccess(details@),
            EditorError::PasteRejected => EditorErrorView::PasteRejected,
            EditorError::InvalidEntryReference(id) => EditorErrorView::InvalidEntryReference(*id),
        }
    }
}

impl EditorErrorView {
    /// The message to show.
    pub open spec fn message(self) -> Seq<char> {
        match self {
            EditorErrorView::ClipboardAccess(details) => CLIPBOARD_ERROR_PREFIX@ + details,
            EditorErrorView::PasteRejected => PASTE_REJECTED_MESSAGE@,
            EditorErrorView::InvalidEntryReference(id) => INVALID_ENTRY_PREFIX@ + decimal(
                id as nat,
            ),
        }
    }
}

impl EditorError {
    /// The message to show.
    pub fn message(&self) -> (out: String)
        ensures
            out@ == self@.message(),
    {
        match self {
            EditorError::ClipboardAccess(details) => {
                let mut out = String::from_str(CLIPBOARD_ERROR_PREFIX);
                out.append(details.as_str());
                out
            },
            EditorError::PasteRejected => String::from_str(PASTE_REJECTED_MESSAGE),
            EditorError::InvalidEntryReference(id) => {
                let mut out = String::from_str(INVALID_ENTRY_PREFIX);
                let digits = string_of(&decimal_exec(*id));
                out.append(digits.as_str());
                out
            },
        }
    }
}

/// The error for a failure of the clipboard of the operating system, of
/// which `details` is what the operating system said.
pub fn map_clipboard_error(details: &str) -> (e: EditorError)
    ensures
        e@ == EditorErrorView::ClipboardAccess(details@),
{
    EditorError::ClipboardAccess(String::from_str(details))
}

} // verus!
