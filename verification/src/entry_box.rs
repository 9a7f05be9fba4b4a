//! The entry box: one line of text in which a note is typed before it is
//! submitted to the buffer. It has no history and is cleared by every
//! submission.

use vstd::prelude::*;
use crate::input::{default_action, default_action_exec, Action, Input, KeyCode};
use crate::motion::{
    find_word_start_backward,
    find_word_start_forward,
    lemma_word_start_before,
    lemma_word_start_from,
    whitespace,
    word_start_before,
    word_start_from,
    CursorMove,
};
use crate::text::{is_line, string_of};

verus! {

/// What the entry box is: its text, the column of its cursor, and whether it
/// has the focus.
pub struct EntryBoxView {
    pub text: Seq<char>,
    pub cursor: int,
    pub active: bool,
}

/// Only white space, or nothing at all.
pub open spec fn is_blank(text: Seq<char>) -> bool {
    forall|i: int| 0 <= i < text.len() ==> whitespace(#[trigger] text[i])
}

impl EntryBoxView {
    /// The cursor lies in the text, and the text is one line.
    pub open spec fn wf(self) -> bool {
        0 <= self.cursor <= self.text.len() && is_line(self.text)
    }

    /// The empty box, with the focus as it was.
    pub open spec fn cleared(self) -> EntryBoxView {
        EntryBoxView { text: Seq::empty(), cursor: 0, active: self.active }
    }

    /// Where a move takes the cursor on the one line: a character on or
    /// back, to the head or the end, to the next or the previous start of a
    /// word. The moves between lines leave it where it is.
    pub open spec fn target(self, m: CursorMove) -> int {
        match m {
            CursorMove::Forward => if self.cursor < self.text.len() {
                self.cursor + 1
            } else {
                self.cursor
            },
            CursorMove::Back => if self.cursor > 0 {
                self.cursor - 1
            } else {
                self.cursor
            },
            CursorMove::Head => 0,
            CursorMove::End => self.text.len() as int,
            CursorMove::WordForward => match word_start_from(self.text, self.cursor + 1) {
                Some(i) => i,
                None => self.text.len() as int,
            },
            CursorMove::WordBack => match word_start_before(self.text, self.cursor) {
                Some(i) => i,
                None => 0,
            },
            _ => self.cursor,
        }
    }

    /// The box after an action: typing, the two deleting keys, deleting to
    /// the end of the line, and moves. A line break cannot be typed, and
    /// every other action leaves the box as it is.
    pub open spec fn apply(self, action: Action) -> EntryBoxView {
        match action {
            Action::Insert(c) => if c == '\n' || c == '\r' {
                self
            } else {
                EntryBoxView {
                    text: self.text.take(self.cursor).push(c) + self.text.skip(self.cursor),
                    cursor: self.cursor + 1,
                    ..self
                }
            },
            Action::Backspace => if self.cursor > 0 {
                EntryBoxView {
                    text: self.text.take(self.cursor - 1) + self.text.skip(self.cursor),
                    cursor: self.cursor - 1,
                    ..self
                }
            } else {
                self
            },
            Action::Delete => if self.cursor < self.text.len() {
                EntryBoxView {
                    text: self.text.take(self.cursor) + self.text.skip(self.cursor + 1),
                    ..self
                }
            } else {
                self
            },
            Action::DeleteLineEnd => EntryBoxView { text: self.text.take(self.cursor), ..self },
            Action::Move { to, keep } => EntryBoxView { cursor: self.target(to), ..self },
            _ => self,
        }
    }

    /// The box after a key. Enter clears it; every other key acts by the
    /// default key map.
    pub open spec fn handle(self, input: Input) -> EntryBoxView {
        if input.key_code == KeyCode::Enter {
            self.cleared()
        } else {
            self.apply(default_action(input))
        }
    }

    /// The text that a key submits: Enter submits the text of the box,
    /// unless it is blank.
    pub open spec fn submits(self, input: Input) -> Option<Seq<char>> {
        if input.key_code == KeyCode::Enter && !is_blank(self.text) {
            Some(self.text)
        } else {
            None
        }
    }
}

/// Every action keeps the invariant of the box.
pub proof fn lemma_entry_box_wf(v: EntryBoxView, action: Action)
    requires
        v.wf(),
    ensures
        v.apply(action).wf(),
        v.cleared().wf(),
{
    lemma_word_start_from(v.text, v.cursor + 1);
    lemma_word_start_before(v.text, v.cursor);
}

/// What a key did to the entry box.
#[derive(Debug, PartialEq, Eq)]
pub enum EntryBoxOutcome {
    /// The key was taken.
    Consumed,
    /// The key submitted this text.
    Submitted(String),
}

/// The single-line field for a new note.
pub struct EntryBox {
    text: Vec<char>,
    cursor: usize,
    active: bool,
}

impl View for EntryBox {
    type V = EntryBoxView;

    closed spec fn view(&self) -> EntryBoxView {
        EntryBoxView { text: self.text@, cursor: self.cursor as int, active: self.active }
    }
}

impl EntryBox {
    /// The invariant of the box, which every operation keeps.
    pub open spec fn wf(&self) -> bool {
        self@.wf()
    }

    /// An empty box without the focus.
    pub fn new() -> (b: EntryBox)
        ensures
            b@ == (EntryBoxView { text: Seq::empty(), cursor: 0, active: false }),
            b.wf(),
    {
        EntryBox { text: Vec::new(), cursor: 0, active: false }
    }

    /// Whether the box has the focus.
    pub fn is_active(&self) -> (b: bool)
        ensures
            b == self@.active,
    {
        self.active
    }

    /// Gives or takes the focus. The text stays.
    pub fn set_active(&mut self, active: bool)
        ensures
            final(self)@ == (EntryBoxView { active, ..old(self)@ }),
    {
        self.active = active;
    }

    /// The text of the box.
    pub fn text(&self) -> (out: String)
        ensures
            out@ == self@.text,
    {
        string_of(&self.text)
    }

    /// The column of the cursor.
    pub fn cursor(&self) -> (c: usize)
        ensures
            c == self@.cursor,
    {
        self.cursor
    }

    /// Whether the text is blank: white space only, or empty.
    pub fn is_blank(&self) -> (b: bool)
        ensures
            b == is_blank(self@.text),
    {
        let mut i: usize = 0;
        while i < self.text.len()
            invariant
                i <= self.text.len(),
                forall|j: int| 0 <= j < i ==> whitespace(#[trigger] self.text@[j]),
            decreases self.text.len() - i,
        {
            if !self.text[i].is_whitespace() {
                return false;
            }
            i += 1;
        }
        true
    }

    /// Empties the box. The focus stays.
    pub fn clear(&mut self)
        ensures
            final(self)@ == old(self)@.cleared(),
            final(self).wf(),
    {
        self.text = Vec::new();
        self.cursor = 0;
    }

    /// Where a move takes the cursor.
    fn target(&self, m: CursorMove) -> (c: usize)
        requires
            self.wf(),
        ensures
            c == self@.target(m),
            c <= self.text.len(),
    {
        proof {
            lemma_word_start_from(self@.text, self@.cursor + 1);
            lemma_word_start_before(self@.text, self@.cursor);
        }
        match m {
            CursorMove::Forward => {
                if self.cursor < self.text.len() {
                    self.cursor + 1
                } else {
                    self.cursor
                }
            },
            CursorMove::Back => {
                if self.cursor > 0 {
                    self.cursor - 1
                } else {
                    self.cursor
                }
            },
            CursorMove::Head => 0,
            CursorMove::End => self.text.len(),
            CursorMove::WordForward => {
                match find_word_start_forward(&self.text, self.cursor) {
                    Some(i) => i,
                    None => self.text.len(),
                }
            },
            CursorMove::WordBack => {
                match find_word_start_backward(&self.text, self.cursor) {
                    Some(i) => i,
                    None => 0,
                }
            },
            _ => self.cursor,
        }
    }

    /// Performs an action on the one line.
    pub fn apply(&mut self, action: Action)
        requires
            old(self).wf(),
        ensures
            final(self)@ == old(self)@.apply(action),
            final(self).wf(),
    {
        proof {
            lemma_entry_box_wf(self@, action);
        }
        match action {
            Action::Insert(c) => {
                if c != '\n' && c != '\r' {
                    self.text.insert(self.cursor, c);
                    let len = self.text.len();
                    assert(self.cursor < len);
                    self.cursor = self.cursor + 1;
                    assert(self.text@ =~= old(self).text@.take(old(self).cursor as int).push(c)
                        + old(self).text@.skip(old(self).cursor as int));
                }
            },
            Action::Backspace => {
                if self.cursor > 0 {
                    self.text.remove(self.cursor - 1);
                    self.cursor = self.cursor - 1;
                    assert(self.text@ =~= old(self).text@.take(old(self).cursor - 1) + old(
                        self,
                    ).text@.skip(old(self).cursor as int));
                }
            },
            Action::Delete => {
                if self.cursor < self.text.len() {
                    self.text.remove(self.cursor);
                    assert(self.text@ =~= old(self).text@.take(old(self).cursor as int) + old(
                        self,
                    ).text@.skip(old(self).cursor + 1));
                }
            },
            Action::DeleteLineEnd => {
                self.text.truncate(self.cursor);
                assert(self.text@ =~= old(self).text@.take(old(self).cursor as int));
            },
            Action::Move { to, keep } => {
                self.cursor = self.target(to);
            },
            _ => {},
        }
    }

    /// Handles a key. Enter submits the text unless it is blank, and clears
    /// the box in either case; every other key acts on the text by the
    /// default key map.
    pub fn handle(&mut self, input: &Input) -> (out: EntryBoxOutcome)
        requires
            old(self).wf(),
        ensures
            final(self)@ == old(self)@.handle(*input),
            final(self).wf(),
            match out {
                EntryBoxOutcome::Submitted(text) => old(self)@.submits(*input) == Some(text@),
                EntryBoxOutcome::Consumed => old(self)@.submits(*input) is None,
            },
    {
        match input.key_code {
            KeyCode::Enter => {
                let blank = self.is_blank();
                let text = string_of(&self.text);
                self.clear();
                if blank {
                    EntryBoxOutcome::Consumed
                } else {
                    EntryBoxOutcome::Submitted(text)
                }
            },
            _ => {
                self.apply(default_action_exec(input));
                EntryBoxOutcome::Consumed
            },
        }
    }
}

} // verus!
