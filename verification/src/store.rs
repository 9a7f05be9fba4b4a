//! The part of the application that the editor consults: the entries with
//! their stored content, which of them is the current one, and the settings.
//! The editor reads these and never writes them.

use vstd::prelude::*;
use crate::error::{EditorError, EditorErrorView};

verus! {

/// One journal entry as the store holds it.
#[derive(Debug, PartialEq, Eq)]
pub struct Entry {
    pub id: u32,
    pub content: String,
}

/// The settings that matter to the editor.
#[derive(Clone, Copy, Debug, PartialEq, Eq, Structural)]
pub struct Settings {
    /// Whether cut, copy and paste go through the clipboard of the
    /// operating system rather than the register of the buffer alone.
    pub sync_os_clipboard: bool,
}

/// The entries, the identifier of the current one, and the settings.
#[derive(Debug)]
pub struct App {
    pub entries: Vec<Entry>,
    pub current_entry_id: Option<u32>,
    pub settings: Settings,
}

/// The index of the first entry with the identifier `id`.
pub open spec fn index_of_entry(entries: Seq<Entry>, id: u32) -> Option<int>
    decreases entries.len(),
{
    if entries.len() == 0 {
        None
    } else if entries[0].id == id {
        Some(0)
    } else {
        match index_of_entry(entries.drop_first(), id) {
            Some(i) => Some(i + 1),
            None => None,
        }
    }
}

/// `index_of_entry` gives the least index of an entry with that identifier,
/// and `None` only if there is none.
pub proof fn lemma_index_of_entry(entries: Seq<Entry>, id: u32)
    ensures
        match index_of_entry(entries, id) {
            Some(i) => 0 <= i < entries.len() && entries[i].id == id && forall|j: int|
                0 <= j < i ==> entries[j].id != id,
            None => forall|j: int| 0 <= j < entries.len() ==> entries[j].id != id,
        },
    decreases entries.len(),
{
    if entries.len() > 0 && entries[0].id != id {
        let rest = entries.drop_first();
        lemma_index_of_entry(rest, id);
        match index_of_entry(rest, id) {
            Some(i) => {
                assert forall|j: int| 0 <= j < i + 1 implies entries[j].id != id by {
                    if j > 0 {
                        assert(entries[j] == rest[j - 1]);
                    }
                }
            },
            None => {
                assert forall|j: int| 0 <= j < entries.len() implies entries[j].id != id by {
                    if j > 0 {
                        assert(entries[j] == rest[j - 1]);
                    }
                }
            },
        }
    }
}

impl App {
    /// A store with the given entries and settings and no current entry.
    pub fn new(entries: Vec<Entry>, settings: Settings) -> (app: App)
        ensures
            app.entries == entries,
            app.current_entry_id is None,
            app.settings == settings,
    {
        App { entries, current_entry_id: None, settings }
    }

    /// The stored content of the entry `id`, if the store has that entry.
    pub open spec fn content_of(&self, id: u32) -> Option<Seq<char>> {
        match index_of_entry(self.entries@, id) {
            Some(i) => Some(self.entries@[i].content@),
            None => None,
        }
    }

    /// The stored content of the current entry, if there is one.
    pub open spec fn current_content(&self) -> Option<Seq<char>> {
        match self.current_entry_id {
            Some(id) => self.content_of(id),
            None => None,
        }
    }

    /// The first entry with the identifier `id`.
    pub fn get_entry(&self, id: u32) -> (out: Option<&Entry>)
        ensures
            match out {
                Some(e) => index_of_entry(self.entries@, id) matches Some(i) && *e
                    == self.entries@[i],
                None => index_of_entry(self.entries@, id) is None,
            },
            match out {
                Some(e) => self.content_of(id) == Some(e.content@),
                None => self.content_of(id) is None,
            },
    {
        let mut i: usize = 0;
        while i < self.entries.len()
            invariant
                i <= self.entries.len(),
                forall|j: int| 0 <= j < i ==> self.entries@[j].id != id,
            decreases self.entries.len() - i,
        {
            if self.entries[i].id == id {
                proof {
                    lemma_index_of_entry(self.entries@, id);
                }
                return Some(&self.entries[i]);
            }
            i += 1;
        }
        proof {
            lemma_index_of_entry(self.entries@, id);
        }
        None
    }

    /// The first entry with the identifier `id`, or the error that names the
    /// identifier where the store has no such entry.
    pub fn lookup_entry(&self, id: u32) -> (out: Result<&Entry, EditorError>)
        ensures
            match out {
                Ok(e) => index_of_entry(self.entries@, id) matches Some(i) && *e
                    == self.entries@[i],
                Err(e) => index_of_entry(self.entries@, id) is None && e@
                    == EditorErrorView::InvalidEntryReference(id),
            },
    {
        match self.get_entry(id) {
            Some(entry) => Ok(entry),
            None => Err(EditorError::InvalidEntryReference(id)),
        }
    }

    /// The current entry, if there is one and the store has it.
    pub fn get_current_entry(&self) -> (out: Option<&Entry>)
        ensures
            match out {
                Some(e) => self.current_content() == Some(e.content@),
                None => self.current_content() is None,
            },
    {
        match self.current_entry_id {
            Some(id) => self.get_entry(id),
            None => None,
        }
    }
}

} // verus!
