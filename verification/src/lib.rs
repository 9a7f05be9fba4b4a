//! The editing core of a terminal journal: a modal editor (Normal, Insert,
//! Visual) over the text of one entry, and a one-line box in which notes are
//! captured and added to that text under the time of day.
//!
//! The library holds no terminal, no file and no clipboard. Keys come in as
//! plain values, the store is read through `App`, and what is to be done with
//! the clipboard of the operating system goes out as a `ClipboardRequest`.

pub mod buffer;
pub mod clipboard;
pub mod clock;
pub mod command;
pub mod count;
pub mod editor;
pub mod entries_list;
pub mod entry_box;
pub mod error;
pub mod input;
pub mod laws;
pub mod model;
pub mod motion;
pub mod region;
pub mod settings;
pub mod store;
pub mod text;
