//! The editor: the buffer and the entry box under one mode, with the flags
//! that say whether the text was touched and whether it differs from what
//! the store holds.
//!
//! `EditorView` is the editor as a mathematical value, and each of its
//! functions says what one operation makes of it. The methods of `Editor`
//! promise that the view changes as these functions say.

use vstd::prelude::*;
use crate::buffer::{initial_lines, Buffer};
use crate::clipboard::{ClipboardOperation, ClipboardRequest, Request};
use crate::clock::{is_short_time, lemma_short_time_is_line, local_short_time};
use crate::command::{
    classify,
    classify_exec,
    clipboard_shortcut,
    clipboard_shortcut_exec,
    vim_command,
    vim_command_exec,
    visual_only,
    visual_only_exec,
    Command,
    EditorMode,
};
use crate::entry_box::{EntryBox, EntryBoxOutcome, EntryBoxView};
use crate::error::{map_clipboard_error, EditorError, EditorErrorView};
use crate::input::{
    default_action,
    is_default_navigation,
    Action,
    HandleInputReturnType,
    Input,
    KeyCode,
};
use crate::model::{lemma_moved_wf, lemma_operations_wf, lemma_scrolled_wf, BufferView};
use crate::motion::{CursorMove, Scrolling};
use crate::region::Pos;
use crate::store::App;
use crate::text::{append_range, chars_of, is_line};

verus! {

/// What the editor is.
pub struct EditorView {
    pub buffer: BufferView,
    pub entry_box: EntryBoxView,
    pub mode: EditorMode,
    /// Whether the editor is the active part of the screen.
    pub is_active: bool,
    /// Whether the text was edited since the entry was loaded.
    pub is_dirty: bool,
    /// Whether the text was edited and differs from what the store holds.
    pub has_unsaved: bool,
}

/// The line that a submitted note becomes: the time, a space, the note.
pub open spec fn stamped(time: Seq<char>, text: Seq<char>) -> Seq<char> {
    time + seq![' '] + text
}

impl EditorView {
    /// The invariant of the editor between two operations: buffer and entry
    /// box are in order, and a selection is open exactly in Visual mode.
    pub open spec fn wf(self) -> bool {
        &&& self.buffer.wf()
        &&& self.entry_box.wf()
        &&& (self.mode == EditorMode::Visual <==> self.buffer.selection is Some)
    }

    /// What holds also in the middle of an operation: buffer and entry box
    /// are in order, and a selection is open in Visual mode only.
    pub open spec fn sound(self) -> bool {
        &&& self.buffer.wf()
        &&& self.entry_box.wf()
        &&& (self.buffer.selection is Some ==> self.mode == EditorMode::Visual)
    }

    /// The editor at its creation: an empty buffer, an empty entry box,
    /// Normal mode, all flags down.
    pub open spec fn initial() -> EditorView {
        EditorView {
            buffer: BufferView::fresh(seq![Seq::<char>::empty()], Pos { row: 0, col: 0 }),
            entry_box: EntryBoxView { text: Seq::empty(), cursor: 0, active: false },
            mode: EditorMode::Normal,
            is_active: false,
            is_dirty: false,
            has_unsaved: false,
        }
    }

    /// A change of mode. Into Visual mode a selection opens at the cursor;
    /// out of it the selection closes and the cursor stays; a change to the
    /// mode that the editor is in changes nothing.
    pub open spec fn set_mode(self, mode: EditorMode) -> EditorView {
        if self.mode == mode {
            self
        } else if mode == EditorMode::Visual {
            EditorView { buffer: self.buffer.anchored(), mode, ..self }
        } else {
            EditorView { buffer: self.buffer.unselected(), mode, ..self }
        }
    }

    /// The check after a command: Visual mode without a selection becomes
    /// Normal mode.
    pub open spec fn settled(self) -> EditorView {
        if self.mode == EditorMode::Visual && self.buffer.selection is None {
            EditorView { mode: EditorMode::Normal, ..self }
        } else {
            self
        }
    }

    /// The editor with a new state of the buffer; `modified` says whether
    /// the text was edited to reach it.
    pub open spec fn touched(self, buffer: BufferView, modified: bool) -> EditorView {
        EditorView { buffer, is_dirty: self.is_dirty || modified, ..self }
    }

    /// Whether an edited text differs from the stored content of the current
    /// entry; false where the text was not edited or there is no current
    /// entry.
    pub open spec fn unsaved(self, stored: Option<Seq<char>>) -> bool {
        self.is_dirty && stored is Some && stored->0 != self.buffer.content()
    }

    /// The editor with `has_unsaved` computed anew.
    pub open spec fn refreshed(self, stored: Option<Seq<char>>) -> EditorView {
        EditorView { has_unsaved: self.unsaved(stored), ..self }
    }

    /// The editor after a command, before the check of the mode. With
    /// `sync`, paste changes nothing here: the text comes from the clipboard
    /// of the operating system, later.
    pub open spec fn executed(self, cmd: Command, sync: bool) -> EditorView {
        let b = self.buffer;
        match cmd {
            Command::Navigate(action) => self.touched(b.apply(action), b.modifies(action)),
            Command::VisualCut => self.touched(b.cut(), b.selected() is Some),
            Command::VisualCopy => self.touched(b.copy(), false).set_mode(EditorMode::Normal),
            Command::VisualChange => self.touched(b.cut(), b.selected() is Some).set_mode(
                EditorMode::Insert,
            ),
            Command::Move(m) => self.touched(b.moved(m, true), false),
            Command::Scroll(s) => self.touched(b.scrolled(s, true), false),
            Command::DeleteLineEnd => self.touched(b.delete_line_by_end(), b.line_rest() is Some),
            Command::ChangeLineEnd => self.touched(
                b.delete_line_by_end(),
                b.line_rest() is Some,
            ).set_mode(EditorMode::Insert),
            Command::DeleteChar => self.touched(b.delete_next_char(true), b.char_after() is Some),
            Command::Paste => if sync {
                self
            } else {
                self.touched(b.paste(), b.can_paste())
            },
            Command::Undo => self.touched(b.undo(), b.undo.len() > 0),
            Command::Redo => self.touched(b.redo(), b.redo.len() > 0),
            Command::Insert => self.set_mode(EditorMode::Insert),
            Command::InsertAfter => self.touched(b.moved(CursorMove::Forward, true), false).set_mode(
                EditorMode::Insert,
            ),
            Command::InsertLineEnd => self.touched(b.moved(CursorMove::End, true), false).set_mode(
                EditorMode::Insert,
            ),
            Command::InsertLineHead => self.touched(
                b.moved(CursorMove::Head, true),
                false,
            ).set_mode(EditorMode::Insert),
            Command::OpenBelow => self.touched(
                b.moved(CursorMove::End, true).insert_newline(),
                true,
            ).set_mode(EditorMode::Insert),
            Command::OpenAbove => self.touched(
                b.moved(CursorMove::Head, true).insert_newline().moved(CursorMove::Up, true),
                true,
            ).set_mode(EditorMode::Insert),
            Command::Nothing => self,
        }
    }

    /// What a command leaves to do with the clipboard of the operating
    /// system: nothing without `sync`; with it, the commands that fill the
    /// register ask to put the register on the clipboard, and paste asks to
    /// read it.
    pub open spec fn request(self, cmd: Command, sync: bool) -> Request {
        let b = self.buffer;
        if !sync {
            Request::Nothing
        } else {
            match cmd {
                Command::VisualCut | Command::VisualChange => Request::SetText(b.cut().yank_text()),
                Command::VisualCopy => Request::SetText(b.copy().yank_text()),
                Command::DeleteLineEnd | Command::ChangeLineEnd => Request::SetText(
                    b.delete_line_by_end().yank_text(),
                ),
                Command::DeleteChar => Request::SetText(b.delete_next_char(true).yank_text()),
                Command::Paste => Request::GetText,
                _ => Request::Nothing,
            }
        }
    }

    /// The editor after a clipboard command under the policy that shares the
    /// clipboard of the operating system. Paste changes nothing yet.
    pub open spec fn clipboard_executed(
        self,
        op: ClipboardOperation,
        stored: Option<Seq<char>>,
    ) -> EditorView {
        let b = self.buffer;
        match op {
            ClipboardOperation::Copy => self.touched(b.copy(), false).settled().refreshed(stored),
            ClipboardOperation::Cut => self.touched(
                b.cut(),
                b.selected() is Some,
            ).settled().refreshed(stored),
            ClipboardOperation::Paste => self,
        }
    }

    /// What a clipboard command leaves to do with the clipboard of the
    /// operating system.
    pub open spec fn clipboard_request(self, op: ClipboardOperation) -> Request {
        match op {
            ClipboardOperation::Copy => Request::SetText(self.buffer.copy().yank_text()),
            ClipboardOperation::Cut => Request::SetText(self.buffer.cut().yank_text()),
            ClipboardOperation::Paste => Request::GetText,
        }
    }

    /// Whether a text from the clipboard is inserted: it is not empty and
    /// holds something to insert.
    pub open spec fn takes(text: Seq<char>) -> bool {
        text.len() > 0 && BufferView::accepts(text)
    }

    /// The editor after the paste of a text from the clipboard of the
    /// operating system.
    pub open spec fn os_pasted(self, text: Seq<char>, stored: Option<Seq<char>>) -> EditorView {
        if Self::takes(text) {
            self.touched(self.buffer.insert_str(text), true).settled().refreshed(stored)
        } else {
            self
        }
    }

    /// The editor with a note added to the text as a new last line.
    pub open spec fn appended(self, line: Seq<char>, stored: Option<Seq<char>>) -> EditorView {
        self.touched(self.buffer.append_line(line), true).settled().refreshed(stored)
    }

    /// The editor with the whole text replaced by `content`, as an edit that
    /// undo can take back; the cursor stands at the end.
    pub open spec fn replaced(self, content: Seq<char>, stored: Option<Seq<char>>) -> EditorView {
        let lines = initial_lines(content);
        self.touched(
            self.buffer.edited(
                lines,
                Pos { row: lines.len() - 1, col: lines.last().len() as int },
                self.buffer.yank,
            ),
            true,
        ).settled().refreshed(stored)
    }

    /// The editor after the switch to an entry with the stored content
    /// `content`, or to no entry: a new buffer with the cursor at the end of
    /// the text, an empty entry box without the focus, Normal mode, and
    /// nothing unsaved.
    pub open spec fn loaded(self, content: Option<Seq<char>>) -> EditorView {
        let lines = match content {
            Some(c) => initial_lines(c),
            None => seq![Seq::<char>::empty()],
        };
        EditorView {
            buffer: BufferView::fresh(
                lines,
                Pos { row: lines.len() - 1, col: lines.last().len() as int },
            ),
            entry_box: EntryBoxView { text: Seq::empty(), cursor: 0, active: false },
            mode: EditorMode::Normal,
            is_active: self.is_active,
            is_dirty: false,
            has_unsaved: false,
        }
    }

    /// The editor made the active part of the screen, or not. Activation
    /// gives the focus to the entry box; deactivation takes it away and
    /// leads back to Normal mode.
    pub open spec fn activated(self, active: bool) -> EditorView {
        let next = if active {
            self
        } else {
            self.set_mode(EditorMode::Normal)
        };
        EditorView {
            is_active: active,
            entry_box: EntryBoxView { active, ..self.entry_box },
            ..next
        }
    }

    /// The focus moved from the entry box to the buffer or back. The buffer
    /// gets it in Normal mode.
    pub open spec fn focus_toggled(self) -> EditorView {
        let entry_box = EntryBoxView { active: !self.entry_box.active, ..self.entry_box };
        if entry_box.active {
            EditorView { entry_box, ..self }
        } else {
            EditorView { entry_box, ..self.set_mode(EditorMode::Normal) }
        }
    }

    /// Whether the first handler takes the key: the entry box has the focus
    /// and the key is not the one that moves the focus, or the editor is in
    /// Insert mode.
    pub open spec fn takes_first(self, input: Input) -> bool {
        if self.entry_box.active {
            input.key_code != KeyCode::BackTab
        } else {
            self.mode == EditorMode::Insert
        }
    }

    /// The editor after a key that the first handler was offered. `time` is
    /// the time that stands before a submitted note.
    pub open spec fn prioritized(
        self,
        input: Input,
        sync: bool,
        stored: Option<Seq<char>>,
        time: Seq<char>,
    ) -> EditorView {
        if !self.takes_first(input) {
            self
        } else if self.entry_box.active {
            let boxed = EditorView { entry_box: self.entry_box.handle(input), ..self };
            match self.entry_box.submits(input) {
                Some(text) => boxed.appended(stamped(time, text), stored),
                None => boxed,
            }
        } else if sync && clipboard_shortcut(input) is Some {
            self.clipboard_executed(clipboard_shortcut(input)->0, stored)
        } else {
            self.touched(
                self.buffer.input(input),
                self.buffer.modifies(default_action(input)),
            ).settled().refreshed(stored)
        }
    }

    /// What the first handler leaves to do with the clipboard of the
    /// operating system.
    pub open spec fn prioritized_request(self, input: Input, sync: bool) -> Request {
        if self.takes_first(input) && !self.entry_box.active && sync && clipboard_shortcut(
            input,
        ) is Some {
            self.clipboard_request(clipboard_shortcut(input)->0)
        } else {
            Request::Nothing
        }
    }

    /// Whether the general handler acts on the key: there is a current
    /// entry, the key does not move the focus, and the buffer has the focus.
    pub open spec fn dispatches(self, input: Input, stored: Option<Seq<char>>) -> bool {
        stored is Some && input.key_code != KeyCode::BackTab && !self.entry_box.active
    }

    /// The editor after a key that the general handler was given: without a
    /// current entry nothing happens; the key that moves the focus moves it;
    /// and where the buffer has the focus the command of the key is
    /// executed, the mode checked, and `has_unsaved` computed anew.
    pub open spec fn handled(self, input: Input, sync: bool, stored: Option<Seq<char>>) -> EditorView {
        if stored is None {
            self
        } else if input.key_code == KeyCode::BackTab {
            self.focus_toggled()
        } else if self.entry_box.active {
            self
        } else {
            self.executed(classify(input, self.mode), sync).settled().refreshed(stored)
        }
    }

    /// What the general handler leaves to do with the clipboard of the
    /// operating system.
    pub open spec fn handled_request(
        self,
        input: Input,
        sync: bool,
        stored: Option<Seq<char>>,
    ) -> Request {
        if self.dispatches(input, stored) {
            self.request(classify(input, self.mode), sync)
        } else {
            Request::Nothing
        }
    }
}

/// A change of mode keeps the invariant of the editor.
pub proof fn lemma_set_mode_wf(v: EditorView, mode: EditorMode)
    requires
        v.wf(),
    ensures
        v.set_mode(mode).wf(),
        v.set_mode(mode).mode == mode,
        v.set_mode(mode).buffer.lines == v.buffer.lines,
        v.set_mode(mode).buffer.cursor == v.buffer.cursor,
{
    lemma_operations_wf(v.buffer);
}

/// The check of the mode makes the invariant of the editor hold.
pub proof fn lemma_settled_wf(v: EditorView)
    requires
        v.sound(),
    ensures
        v.settled().wf(),
        v.settled().buffer == v.buffer,
{
}

/// `after` is a buffer in order in which a selection is open only if one was
/// open in `before`.
#[verifier::opaque]
pub open spec fn follows(after: BufferView, before: BufferView) -> bool {
    after.wf() && (after.selection is Some ==> before.selection is Some)
}

/// No edit of the buffer opens a selection, and each keeps the buffer in
/// order.
pub proof fn lemma_edits_follow(b: BufferView)
    requires
        b.wf(),
    ensures
        follows(b, b),
        follows(b.cut(), b),
        follows(b.copy(), b),
        follows(b.delete_line_by_end(), b),
        follows(b.delete_next_char(true), b),
        follows(b.delete_next_char(false), b),
        follows(b.delete_char(), b),
        follows(b.paste(), b),
        follows(b.undo(), b),
        follows(b.redo(), b),
        follows(b.insert_newline(), b),
        follows(b.insert_tab(), b),
        forall|c: char| follows(#[trigger] b.insert_char(c), b),
{
    reveal(follows);
    lemma_operations_wf(b);
}

/// No move and no scrolling opens a selection, and each keeps the buffer in
/// order.
pub proof fn lemma_moves_follow(b: BufferView)
    requires
        b.wf(),
    ensures
        forall|m: CursorMove, keep: bool| follows(#[trigger] b.moved(m, keep), b),
        forall|s: Scrolling, keep: bool| follows(#[trigger] b.scrolled(s, keep), b),
{
    reveal(follows);
    assert forall|m: CursorMove, keep: bool| follows(#[trigger] b.moved(m, keep), b) by {
        lemma_moved_wf(b, m, keep);
    }
    assert forall|s: Scrolling, keep: bool| follows(#[trigger] b.scrolled(s, keep), b) by {
        lemma_scrolled_wf(b, s, keep);
    }
}

/// No action opens a selection, and each keeps the buffer in order.
pub proof fn lemma_apply_follows(b: BufferView, action: Action)
    requires
        b.wf(),
    ensures
        follows(b.apply(action), b),
{
    lemma_edits_follow(b);
    lemma_moves_follow(b);
}

/// `follows` goes through two steps.
pub proof fn lemma_follows_twice(c: BufferView, b: BufferView, a: BufferView)
    requires
        follows(c, b),
        follows(b, a),
    ensures
        follows(c, a),
{
    reveal(follows);
}

/// A new state of the buffer that opens no selection leaves the editor
/// sound, also with a change to a mode other than Visual behind it.
pub proof fn lemma_touched_sound(v: EditorView, b: BufferView, modified: bool)
    requires
        v.wf(),
        follows(b, v.buffer),
    ensures
        v.touched(b, modified).sound(),
        v.touched(b, modified).set_mode(EditorMode::Normal).sound(),
        v.touched(b, modified).set_mode(EditorMode::Insert).sound(),
{
    reveal(follows);
    lemma_operations_wf(b);
}

/// A command that acts on the buffer once, and may change to Normal or
/// Insert mode after that, leaves the editor sound.
proof fn lemma_once_sound(v: EditorView, cmd: Command, sync: bool)
    requires
        v.wf(),
        !(cmd is OpenBelow),
        !(cmd is OpenAbove),
    ensures
        v.executed(cmd, sync).sound(),
{
    let b = v.buffer;
    match cmd {
        Command::Navigate(action) => {
            lemma_apply_follows(b, action);
            lemma_touched_sound(v, b.apply(action), b.modifies(action));
        },
        Command::VisualCut | Command::VisualChange => {
            lemma_edits_follow(b);
            lemma_touched_sound(v, b.cut(), b.selected() is Some);
        },
        Command::VisualCopy => {
            lemma_edits_follow(b);
            lemma_touched_sound(v, b.copy(), false);
        },
        Command::Move(m) => {
            lemma_moves_follow(b);
            lemma_touched_sound(v, b.moved(m, true), false);
        },
        Command::Scroll(s) => {
            lemma_moves_follow(b);
            lemma_touched_sound(v, b.scrolled(s, true), false);
        },
        Command::DeleteLineEnd | Command::ChangeLineEnd => {
            lemma_edits_follow(b);
            lemma_touched_sound(v, b.delete_line_by_end(), b.line_rest() is Some);
        },
        Command::DeleteChar => {
            lemma_edits_follow(b);
            lemma_touched_sound(v, b.delete_next_char(true), b.char_after() is Some);
        },
        Command::Paste => {
            lemma_edits_follow(b);
            lemma_touched_sound(v, b.paste(), b.can_paste());
        },
        Command::Undo => {
            lemma_edits_follow(b);
            lemma_touched_sound(v, b.undo(), b.undo.len() > 0);
        },
        Command::Redo => {
            lemma_edits_follow(b);
            lemma_touched_sound(v, b.redo(), b.redo.len() > 0);
        },
        Command::Insert => {
            lemma_edits_follow(b);
            lemma_touched_sound(v, b, false);
            assert(v.touched(b, false) == v);
        },
        Command::InsertAfter => {
            lemma_moves_follow(b);
            lemma_touched_sound(v, b.moved(CursorMove::Forward, true), false);
        },
        Command::InsertLineEnd => {
            lemma_moves_follow(b);
            lemma_touched_sound(v, b.moved(CursorMove::End, true), false);
        },
        Command::InsertLineHead => {
            lemma_moves_follow(b);
            lemma_touched_sound(v, b.moved(CursorMove::Head, true), false);
        },
        _ => {},
    }
}

/// Opening a line leaves the editor sound.
proof fn lemma_open_sound(v: EditorView, cmd: Command, sync: bool)
    requires
        v.wf(),
        cmd is OpenBelow || cmd is OpenAbove,
    ensures
        v.executed(cmd, sync).sound(),
{
    let b = v.buffer;
    lemma_moves_follow(b);
    if cmd is OpenBelow {
        let b1 = b.moved(CursorMove::End, true);
        assert(b1.wf()) by {
            lemma_moved_wf(b, CursorMove::End, true);
        }
        lemma_edits_follow(b1);
        lemma_follows_twice(b1.insert_newline(), b1, b);
        lemma_touched_sound(v, b1.insert_newline(), true);
    } else {
        let b1 = b.moved(CursorMove::Head, true);
        assert(b1.wf()) by {
            lemma_moved_wf(b, CursorMove::Head, true);
        }
        lemma_edits_follow(b1);
        let b2 = b1.insert_newline();
        assert(b2.wf()) by {
            lemma_operations_wf(b1);
        }
        lemma_moves_follow(b2);
        let b3 = b2.moved(CursorMove::Up, true);
        lemma_follows_twice(b2, b1, b);
        lemma_follows_twice(b3, b2, b);
        lemma_touched_sound(v, b3, true);
    }
}

/// A command leaves buffer and entry box in order, and a selection open in
/// Visual mode only.
pub proof fn lemma_executed_sound(v: EditorView, cmd: Command, sync: bool)
    requires
        v.wf(),
    ensures
        v.executed(cmd, sync).sound(),
{
    if cmd is OpenBelow || cmd is OpenAbove {
        lemma_open_sound(v, cmd, sync);
    } else {
        lemma_once_sound(v, cmd, sync);
    }
}

/// The editor of one entry: the buffer with its text, the entry box, and
/// the mode.
pub struct Editor {
    buffer: Buffer,
    entry_box: EntryBox,
    mode: EditorMode,
    is_active: bool,
    is_dirty: bool,
    has_unsaved: bool,
}

impl View for Editor {
    type V = EditorView;

    closed spec fn view(&self) -> EditorView {
        EditorView {
            buffer: self.buffer@,
            entry_box: self.entry_box@,
            mode: self.mode,
            is_active: self.is_active,
            is_dirty: self.is_dirty,
            has_unsaved: self.has_unsaved,
        }
    }
}

impl Editor {
    /// The invariant of the editor, which every public operation keeps.
    pub open spec fn wf(&self) -> bool {
        self@.wf()
    }

    /// An editor with an empty buffer, in Normal mode.
    pub fn new() -> (e: Editor)
        ensures
            e@ == EditorView::initial(),
            e.wf(),
    {
        Editor {
            buffer: Buffer::new(),
            entry_box: EntryBox::new(),
            mode: EditorMode::Normal,
            is_active: false,
            is_dirty: false,
            has_unsaved: false,
        }
    }

    /// The buffer, to look at.
    pub fn buffer(&self) -> (b: &Buffer)
        ensures
            b@ == self@.buffer,
    {
        &self.buffer
    }

    /// The entry box, to look at.
    pub fn entry_box(&self) -> (b: &EntryBox)
        ensures
            b@ == self@.entry_box,
    {
        &self.entry_box
    }

    /// Whether the editor is in Insert mode.
    pub fn is_insert_mode(&self) -> (b: bool)
        ensures
            b == (self@.mode == EditorMode::Insert),
    {
        self.mode == EditorMode::Insert
    }

    /// Whether the editor is in Visual mode.
    pub fn is_visual_mode(&self) -> (b: bool)
        ensures
            b == (self@.mode == EditorMode::Visual),
    {
        self.mode == EditorMode::Visual
    }

    /// Whether keys go to the first handler before any other: in Insert and
    /// in Visual mode.
    pub fn is_prioritized(&self) -> (b: bool)
        ensures
            b == (self@.mode == EditorMode::Insert || self@.mode == EditorMode::Visual),
    {
        self.mode == EditorMode::Insert || self.mode == EditorMode::Visual
    }

    /// The mode of the editor.
    pub fn get_editor_mode(&self) -> (mode: EditorMode)
        ensures
            mode == self@.mode,
    {
        self.mode
    }

    /// Whether the editor is the active part of the screen.
    pub fn is_active(&self) -> (b: bool)
        ensures
            b == self@.is_active,
    {
        self.is_active
    }

    /// Whether the entry box has the focus.
    pub fn is_entry_active(&self) -> (b: bool)
        ensures
            b == self@.entry_box.active,
    {
        self.entry_box.is_active()
    }

    /// Whether the text was edited since the entry was loaded.
    pub fn is_dirty(&self) -> (b: bool)
        ensures
            b == self@.is_dirty,
    {
        self.is_dirty
    }

    /// Whether the text was edited and differs from what the store holds,
    /// as of the last operation.
    pub fn has_unsaved(&self) -> (b: bool)
        ensures
            b == self@.has_unsaved,
    {
        self.has_unsaved
    }

    /// The whole text as one string.
    pub fn get_content(&self) -> (out: String)
        ensures
            out@ == self@.buffer.content(),
    {
        self.buffer.content()
    }

    /// Tells the buffer how many rows of it are on screen; its window moves
    /// so that it shows the cursor.
    pub fn reveal_cursor(&mut self, height: usize)
        requires
            old(self).wf(),
        ensures
            final(self)@ == (EditorView { buffer: old(self)@.buffer.revealed(height), ..old(self)@ }),
            final(self).wf(),
    {
        proof {
            lemma_operations_wf(self@.buffer);
        }
        self.buffer.reveal_cursor(height);
    }

    /// Changes the mode.
    pub fn set_editor_mode(&mut self, mode: EditorMode)
        requires
            old(self).wf(),
        ensures
            final(self)@ == old(self)@.set_mode(mode),
            final(self).wf(),
    {
        proof {
            lemma_set_mode_wf(self@, mode);
        }
        self.switch_mode(mode);
    }

    /// Changes the mode, also in the middle of a command.
    fn switch_mode(&mut self, mode: EditorMode)
        requires
            old(self)@.buffer.wf(),
        ensures
            final(self)@ == old(self)@.set_mode(mode),
            final(self)@.buffer.wf(),
    {
        proof {
            lemma_operations_wf(self@.buffer);
        }
        if self.mode != mode {
            if mode == EditorMode::Visual {
                self.buffer.start_selection();
            } else {
                self.buffer.cancel_selection();
            }
            self.mode = mode;
        }
    }

    /// Leaves Visual mode if no selection is open.
    fn settle(&mut self)
        requires
            old(self)@.sound(),
        ensures
            final(self)@ == old(self)@.settled(),
            final(self).wf(),
    {
        if self.mode == EditorMode::Visual && !self.buffer.is_selecting() {
            self.mode = EditorMode::Normal;
        }
    }

    /// Computes `has_unsaved` anew: the text was edited, there is a current
    /// entry, and its stored content is not the text.
    pub fn refresh_has_unsaved(&mut self, app: &App)
        requires
            old(self).wf(),
        ensures
            final(self)@ == old(self)@.refreshed(app.current_content()),
            final(self).wf(),
    {
        self.has_unsaved = if self.is_dirty {
            match app.get_current_entry() {
                Some(entry) => {
                    let content = self.buffer.content();
                    !(entry.content == content)
                },
                None => false,
            }
        } else {
            false
        };
    }

    /// Makes the editor the active part of the screen, or not.
    pub fn set_active(&mut self, active: bool)
        requires
            old(self).wf(),
        ensures
            final(self)@ == old(self)@.activated(active),
            final(self).wf(),
    {
        proof {
            lemma_set_mode_wf(self@, EditorMode::Normal);
        }
        if !active {
            self.switch_mode(EditorMode::Normal);
        }
        self.is_active = active;
        self.entry_box.set_active(active);
    }

    /// Switches to the entry `entry_id`, or to none. An identifier that the
    /// store does not have counts as none: the buffer is then one empty
    /// line, and nothing is reported.
    pub fn set_current_entry(&mut self, entry_id: Option<u32>, app: &App)
        ensures
            final(self)@ == old(self)@.loaded(
                match entry_id {
                    Some(id) => app.content_of(id),
                    None => None,
                },
            ),
            final(self).wf(),
    {
        let buffer = match entry_id {
            Some(id) => match app.get_entry(id) {
                Some(entry) => Buffer::from_content(entry.content.as_str()),
                None => Buffer::new(),
            },
            None => Buffer::new(),
        };
        self.buffer = buffer;
        proof {
            lemma_moved_wf(self.buffer@, CursorMove::Bottom, false);
            lemma_moved_wf(self.buffer@.moved(CursorMove::Bottom, false), CursorMove::End, false);
        }
        self.buffer.move_cursor(CursorMove::Bottom, false);
        self.buffer.move_cursor(CursorMove::End, false);
        self.entry_box = EntryBox::new();
        self.mode = EditorMode::Normal;
        self.is_dirty = false;
        self.has_unsaved = false;
    }

    /// Replaces the whole text by `content`, as an edit.
    pub fn set_entry_content(&mut self, entry_content: &str, app: &App)
        requires
            old(self).wf(),
        ensures
            final(self)@ == old(self)@.replaced(entry_content@, app.current_content()),
            final(self).wf(),
    {
        self.buffer.set_content(entry_content);
        self.is_dirty = true;
        self.settle();
        self.refresh_has_unsaved(app);
    }

    /// Executes a command. What is left to do with the clipboard of the
    /// operating system is returned.
    fn execute(&mut self, cmd: Command, sync: bool) -> (out: ClipboardRequest)
        requires
            old(self).wf(),
        ensures
            final(self)@ == old(self)@.executed(cmd, sync),
            out@ == old(self)@.request(cmd, sync),
            final(self)@.sound(),
    {
        proof {
            lemma_executed_sound(self@, cmd, sync);
            lemma_operations_wf(self@.buffer);
        }
        match cmd {
            Command::Navigate(action) => {
                if self.buffer.apply(action) {
                    self.is_dirty = true;
                }
                ClipboardRequest::Nothing
            },
            Command::VisualCut => {
                if self.buffer.cut() {
                    self.is_dirty = true;
                }
                self.written(sync)
            },
            Command::VisualCopy => {
                self.buffer.copy();
                let out = self.written(sync);
                self.switch_mode(EditorMode::Normal);
                out
            },
            Command::VisualChange => {
                if self.buffer.cut() {
                    self.is_dirty = true;
                }
                let out = self.written(sync);
                self.switch_mode(EditorMode::Insert);
                out
            },
            Command::Move(m) => {
                self.buffer.move_cursor(m, true);
                ClipboardRequest::Nothing
            },
            Command::Scroll(s) => {
                self.buffer.scroll(s, true);
                ClipboardRequest::Nothing
            },
            Command::DeleteLineEnd => {
                if self.buffer.delete_line_by_end() {
                    self.is_dirty = true;
                }
                self.written(sync)
            },
            Command::ChangeLineEnd => {
                if self.buffer.delete_line_by_end() {
                    self.is_dirty = true;
                }
                let out = self.written(sync);
                self.switch_mode(EditorMode::Insert);
                out
            },
            Command::DeleteChar => {
                if self.buffer.delete_next_char(true) {
                    self.is_dirty = true;
                }
                self.written(sync)
            },
            Command::Paste => {
                if sync {
                    ClipboardRequest::GetText
                } else {
                    if self.buffer.paste() {
                        self.is_dirty = true;
                    }
                    ClipboardRequest::Nothing
                }
            },
            Command::Undo => {
                if self.buffer.undo() {
                    self.is_dirty = true;
                }
                ClipboardRequest::Nothing
            },
            Command::Redo => {
                if self.buffer.redo() {
                    self.is_dirty = true;
                }
                ClipboardRequest::Nothing
            },
            Command::Insert => {
                self.switch_mode(EditorMode::Insert);
                ClipboardRequest::Nothing
            },
            Command::InsertAfter => {
                self.buffer.move_cursor(CursorMove::Forward, true);
                self.switch_mode(EditorMode::Insert);
                ClipboardRequest::Nothing
            },
            Command::InsertLineEnd => {
                self.buffer.move_cursor(CursorMove::End, true);
                self.switch_mode(EditorMode::Insert);
                ClipboardRequest::Nothing
            },
            Command::InsertLineHead => {
                self.buffer.move_cursor(CursorMove::Head, true);
                self.switch_mode(EditorMode::Insert);
                ClipboardRequest::Nothing
            },
            Command::OpenBelow => {
                self.buffer.move_cursor(CursorMove::End, true);
                self.buffer.insert_newline();
                self.is_dirty = true;
                self.switch_mode(EditorMode::Insert);
                ClipboardRequest::Nothing
            },
            Command::OpenAbove => {
                self.buffer.move_cursor(CursorMove::Head, true);
                self.buffer.insert_newline();
                self.buffer.move_cursor(CursorMove::Up, true);
                self.is_dirty = true;
                self.switch_mode(EditorMode::Insert);
                ClipboardRequest::Nothing
            },
            Command::Nothing => ClipboardRequest::Nothing,
        }
    }

    /// The request to put the register on the clipboard of the operating
    /// system, where the policy shares it.
    fn written(&self, sync: bool) -> (out: ClipboardRequest)
        ensures
            out@ == if sync {
                Request::SetText(self@.buffer.yank_text())
            } else {
                Request::Nothing
            },
    {
        if sync {
            ClipboardRequest::SetText(self.buffer.yank_text())
        } else {
            ClipboardRequest::Nothing
        }
    }

    /// The commands of Visual mode alone. Returns whether the key was one
    /// of them, and what is left to do with the clipboard.
    fn handle_input_visual_only(&mut self, input: &Input, sync_os_clipboard: bool) -> (out: (
        bool,
        ClipboardRequest,
    ))
        requires
            old(self).wf(),
        ensures
            match visual_only(*input) {
                Some(cmd) => out.0 && final(self)@ == old(self)@.executed(cmd, sync_os_clipboard)
                    && out.1@ == old(self)@.request(cmd, sync_os_clipboard),
                None => !out.0 && final(self)@ == old(self)@ && out.1@ == Request::Nothing,
            },
            final(self)@.sound(),
    {
        match visual_only_exec(input) {
            Some(cmd) => {
                let request = self.execute(cmd, sync_os_clipboard);
                (true, request)
            },
            None => (false, ClipboardRequest::Nothing),
        }
    }

    /// The motions and commands of Normal and Visual mode. Returns what is
    /// left to do with the clipboard.
    fn handle_vim_motions(&mut self, input: &Input, sync_os_clipboard: bool) -> (out:
        ClipboardRequest)
        requires
            old(self).wf(),
        ensures
            final(self)@ == old(self)@.executed(vim_command(*input), sync_os_clipboard),
            out@ == old(self)@.request(vim_command(*input), sync_os_clipboard),
            final(self)@.sound(),
    {
        self.execute(vim_command_exec(input), sync_os_clipboard)
    }

    /// A clipboard command under the policy that shares the clipboard of the
    /// operating system. Copy and cut fill the register and ask to put it on
    /// that clipboard; paste asks to read it, and `paste_os_text` takes
    /// what was read.
    pub fn exec_os_clipboard(&mut self, operation: ClipboardOperation, app: &App) -> (out:
        ClipboardRequest)
        requires
            old(self).wf(),
        ensures
            final(self)@ == old(self)@.clipboard_executed(operation, app.current_content()),
            out@ == old(self)@.clipboard_request(operation),
            final(self).wf(),
    {
        proof {
            lemma_operations_wf(self@.buffer);
        }
        match operation {
            ClipboardOperation::Copy => {
                self.buffer.copy();
                let out = ClipboardRequest::SetText(self.buffer.yank_text());
                self.settle();
                self.refresh_has_unsaved(app);
                out
            },
            ClipboardOperation::Cut => {
                if self.buffer.cut() {
                    self.is_dirty = true;
                }
                let out = ClipboardRequest::SetText(self.buffer.yank_text());
                self.settle();
                self.refresh_has_unsaved(app);
                out
            },
            ClipboardOperation::Paste => ClipboardRequest::GetText,
        }
    }

    /// Takes what the clipboard of the operating system gave for a paste:
    /// the text, or what the operating system said when it failed. A
    /// failure is reported and changes nothing; an empty text changes
    /// nothing; a text that holds nothing to insert is rejected and changes
    /// nothing; every other text is inserted.
    pub fn paste_os_text(&mut self, fetched: Result<String, String>, app: &App) -> (out: Result<
        HandleInputReturnType,
        EditorError,
    >)
        requires
            old(self).wf(),
        ensures
            final(self).wf(),
            match fetched {
                Ok(text) => final(self)@ == old(self)@.os_pasted(text@, app.current_content())
                    && match out {
                    Ok(handled) => handled == HandleInputReturnType::Handled && (text@.len() == 0
                        || BufferView::accepts(text@)),
                    Err(e) => e@ == EditorErrorView::PasteRejected && text@.len() > 0
                        && !BufferView::accepts(text@),
                },
                Err(details) => final(self)@ == old(self)@ && out is Err && out->Err_0@
                    == EditorErrorView::ClipboardAccess(details@),
            },
    {
        match fetched {
            Ok(text) => {
                if text.as_str().unicode_len() == 0 {
                    return Ok(HandleInputReturnType::Handled);
                }
                proof {
                    lemma_operations_wf(self@.buffer);
                }
                if !self.buffer.insert_str(text.as_str()) {
                    return Err(EditorError::PasteRejected);
                }
                self.is_dirty = true;
                self.settle();
                self.refresh_has_unsaved(app);
                Ok(HandleInputReturnType::Handled)
            },
            Err(details) => Err(map_clipboard_error(details.as_str())),
        }
    }

    /// Adds a note to the text: a new last line that holds the time, a
    /// space, and the note.
    pub fn append_entry(&mut self, time: &str, text: &str, app: &App)
        requires
            old(self).wf(),
            is_short_time(time@),
            is_line(text@),
        ensures
            final(self)@ == old(self)@.appended(stamped(time@, text@), app.current_content()),
            final(self).wf(),
    {
        let mut line = chars_of(time);
        line.push(' ');
        let note = chars_of(text);
        append_range(&mut line, &note, 0, note.len());
        assert(line@ =~= stamped(time@, text@));
        proof {
            lemma_short_time_is_line(time@);
            lemma_operations_wf(self@.buffer);
        }
        self.buffer.append_line(line);
        self.is_dirty = true;
        self.settle();
        self.refresh_has_unsaved(app);
    }

    /// The first handler, for the entry box when it has the focus and for
    /// Insert mode. The entry box takes every key but the one that moves
    /// the focus; Enter submits its text as a note under the local time of
    /// the moment. In Insert mode, under the policy that shares the
    /// clipboard of the operating system, Control with `x`, `c`, `v` are
    /// cut, copy and paste; every other key acts on the text by the default
    /// key map. In every other case the key is not taken.
    pub fn handle_input_prioritized(&mut self, input: &Input, app: &App) -> (out: (
        HandleInputReturnType,
        ClipboardRequest,
    ))
        requires
            old(self).wf(),
        ensures
            final(self).wf(),
            exists|time: Seq<char>|
                is_short_time(time) && final(self)@ == old(self)@.prioritized(
                    *input,
                    app.settings.sync_os_clipboard,
                    app.current_content(),
                    time,
                ),
            old(self)@.entry_box.submits(*input) is None || !old(self)@.takes_first(*input)
                ==> forall|time: Seq<char>|
                final(self)@ == old(self)@.prioritized(
                    *input,
                    app.settings.sync_os_clipboard,
                    app.current_content(),
                    time,
                ),
            out.0 == if old(self)@.takes_first(*input) {
                HandleInputReturnType::Handled
            } else {
                HandleInputReturnType::NotFound
            },
            out.1@ == old(self)@.prioritized_request(*input, app.settings.sync_os_clipboard),
    {
        let ghost midnight: Seq<char> = seq!['0', '0', ':', '0', '0'];
        assert(is_short_time(midnight));
        proof {
            lemma_operations_wf(self@.buffer);
        }
        if self.entry_box.is_active() {
            match input.key_code {
                KeyCode::BackTab => {
                    return (HandleInputReturnType::NotFound, ClipboardRequest::Nothing);
                },
                _ => {},
            }
            match self.entry_box.handle(input) {
                EntryBoxOutcome::Submitted(text) => {
                    let time = local_short_time();
                    self.append_entry(time.as_str(), text.as_str(), app);
                },
                EntryBoxOutcome::Consumed => {},
            }
            return (HandleInputReturnType::Handled, ClipboardRequest::Nothing);
        }
        if self.mode == EditorMode::Insert {
            if app.settings.sync_os_clipboard {
                match clipboard_shortcut_exec(input) {
                    Some(operation) => {
                        let request = self.exec_os_clipboard(operation, app);
                        return (HandleInputReturnType::Handled, request);
                    },
                    None => {},
                }
            }
            if self.buffer.input(input) {
                self.is_dirty = true;
            }
            self.settle();
            self.refresh_has_unsaved(app);
            return (HandleInputReturnType::Handled, ClipboardRequest::Nothing);
        }
        (HandleInputReturnType::NotFound, ClipboardRequest::Nothing)
    }

    /// The general handler, for navigation, motions and commands. It takes
    /// every key. Without a current entry nothing happens.
    pub fn handle_input(&mut self, input: &Input, app: &App) -> (out: (
        HandleInputReturnType,
        ClipboardRequest,
    ))
        requires
            old(self).wf(),
        ensures
            final(self)@ == old(self)@.handled(
                *input,
                app.settings.sync_os_clipboard,
                app.current_content(),
            ),
            final(self).wf(),
            out.0 == HandleInputReturnType::Handled,
            out.1@ == old(self)@.handled_request(
                *input,
                app.settings.sync_os_clipboard,
                app.current_content(),
            ),
    {
        if app.get_current_entry().is_none() {
            return (HandleInputReturnType::Handled, ClipboardRequest::Nothing);
        }
        match input.key_code {
            KeyCode::BackTab => {
                proof {
                    lemma_set_mode_wf(self@, EditorMode::Normal);
                }
                let active = !self.entry_box.is_active();
                self.entry_box.set_active(active);
                if !active {
                    self.switch_mode(EditorMode::Normal);
                }
                return (HandleInputReturnType::Handled, ClipboardRequest::Nothing);
            },
            _ => {},
        }
        if self.entry_box.is_active() {
            return (HandleInputReturnType::Handled, ClipboardRequest::Nothing);
        }
        let sync_os_clipboard = app.settings.sync_os_clipboard;
        let request = if is_default_navigation(input) {
            self.execute(classify_exec(input, self.mode), sync_os_clipboard)
        } else {
            let (taken, request) = if self.mode == EditorMode::Visual {
                self.handle_input_visual_only(input, sync_os_clipboard)
            } else {
                (false, ClipboardRequest::Nothing)
            };
            if taken {
                request
            } else if self.mode != EditorMode::Insert {
                self.handle_vim_motions(input, sync_os_clipboard)
            } else {
                ClipboardRequest::Nothing
            }
        };
        self.settle();
        self.refresh_has_unsaved(app);
        (HandleInputReturnType::Handled, request)
    }
}

} // verus!
