//! The buffer: the text of the current entry as lines of characters, with a
//! cursor, a selection, a register, and an undo and a redo stack of
//! snapshots.

use vstd::prelude::*;
use crate::input::{default_action, default_action_exec, Action, Input};
use crate::model::{
    lemma_edited_wf,
    lemma_inserted_wf,
    lemma_operations_wf,
    lemma_reach,
    lemma_selected,
    lemma_spaces,
    lemma_typed,
    line_break,
    spaces,
    BufferView,
    SnapshotView,
    TAB_WIDTH,
};
use crate::motion::{
    into_viewport_exec,
    next_cursor_exec,
    reveal_row,
    scroll_viewport,
    CursorMove,
    Scrolling,
    Viewport,
};
use crate::region::{
    delete_between_exec,
    in_text,
    insert_at_exec,
    insert_end,
    lemma_delete_between,
    lemma_insert_at,
    lemma_text_between,
    pos_le,
    text_between_exec,
    Pos,
    Position,
};
use crate::text::{
    all_lines,
    chars_of,
    content_lines,
    content_lines_exec,
    copy_lines,
    is_line,
    join_lines_exec,
    lemma_content_lines,
    lemma_split_text_lines,
    lines_of,
    split_text_exec,
    string_of,
};

verus! {

/// The text and the cursor at one moment.
pub struct Snapshot {
    lines: Vec<Vec<char>>,
    cursor: Position,
}

impl View for Snapshot {
    type V = SnapshotView;

    closed spec fn view(&self) -> SnapshotView {
        SnapshotView { lines: lines_of(self.lines@), cursor: self.cursor@ }
    }
}

/// What a stack of snapshots holds.
pub open spec fn snapshots_of(v: Seq<Snapshot>) -> Seq<SnapshotView> {
    v.map_values(|s: Snapshot| s@)
}

/// The text of one entry under edit.
pub struct Buffer {
    lines: Vec<Vec<char>>,
    cursor: Position,
    selection: Option<Position>,
    yank: Vec<Vec<char>>,
    undo: Vec<Snapshot>,
    redo: Vec<Snapshot>,
    viewport: Viewport,
}

impl View for Buffer {
    type V = BufferView;

    closed spec fn view(&self) -> BufferView {
        BufferView {
            lines: lines_of(self.lines@),
            cursor: self.cursor@,
            selection: match self.selection {
                Some(p) => Some(p@),
                None => None,
            },
            yank: lines_of(self.yank@),
            undo: snapshots_of(self.undo@),
            redo: snapshots_of(self.redo@),
            viewport: self.viewport,
        }
    }
}

/// The lines of stored content, or one empty line where it has none.
pub open spec fn initial_lines(content: Seq<char>) -> Seq<Seq<char>> {
    if content_lines(content).len() == 0 {
        seq![Seq::<char>::empty()]
    } else {
        content_lines(content)
    }
}

impl Buffer {
    /// The invariant of the buffer, which every operation keeps.
    pub open spec fn wf(&self) -> bool {
        self@.wf()
    }

    /// An empty buffer: one empty line.
    pub fn new() -> (b: Buffer)
        ensures
            b@ == BufferView::fresh(seq![Seq::<char>::empty()], Pos { row: 0, col: 0 }),
            b.wf(),
    {
        let mut lines: Vec<Vec<char>> = Vec::new();
        lines.push(Vec::new());
        let mut yank: Vec<Vec<char>> = Vec::new();
        yank.push(Vec::new());
        let b = Buffer {
            lines,
            cursor: Position { row: 0, col: 0 },
            selection: None,
            yank,
            undo: Vec::new(),
            redo: Vec::new(),
            viewport: Viewport { top: 0, height: 0 },
        };
        assert(b@.lines =~= seq![Seq::<char>::empty()]);
        assert(b@.yank =~= seq![Seq::<char>::empty()]);
        assert(b@.undo =~= Seq::empty());
        assert(b@.redo =~= Seq::empty());
        assert(is_line(Seq::<char>::empty()));
        b
    }

    /// A buffer that holds the lines of `content`, with the cursor at the
    /// head of the first line, no history and an empty register.
    pub fn from_content(content: &str) -> (b: Buffer)
        ensures
            b@ == BufferView::fresh(initial_lines(content@), Pos { row: 0, col: 0 }),
            b.wf(),
    {
        let text = chars_of(content);
        let mut lines = content_lines_exec(&text);
        proof {
            lemma_content_lines(content@);
        }
        if lines.len() == 0 {
            lines.push(Vec::new());
            assert(lines_of(lines@) =~= seq![Seq::<char>::empty()]);
        }
        assert(lines_of(lines@) == initial_lines(content@));
        let mut yank: Vec<Vec<char>> = Vec::new();
        yank.push(Vec::new());
        let b = Buffer {
            lines,
            cursor: Position { row: 0, col: 0 },
            selection: None,
            yank,
            undo: Vec::new(),
            redo: Vec::new(),
            viewport: Viewport { top: 0, height: 0 },
        };
        assert(b@.yank =~= seq![Seq::<char>::empty()]);
        assert(b@.undo =~= Seq::empty());
        assert(b@.redo =~= Seq::empty());
        assert(is_line(Seq::<char>::empty()));
        b
    }

    /// The number of lines.
    pub fn line_count(&self) -> (n: usize)
        ensures
            n == self@.lines.len(),
    {
        self.lines.len()
    }

    /// The lines, each as a string.
    pub fn lines(&self) -> (out: Vec<String>)
        ensures
            out@.len() == self@.lines.len(),
            forall|i: int| 0 <= i < out@.len() ==> (#[trigger] out@[i])@ == self@.lines[i],
    {
        let mut out: Vec<String> = Vec::new();
        let mut i: usize = 0;
        while i < self.lines.len()
            invariant
                i <= self.lines.len(),
                out@.len() == i,
                forall|j: int| 0 <= j < i ==> (#[trigger] out@[j])@ == self.lines@[j]@,
            decreases self.lines.len() - i,
        {
            out.push(string_of(&self.lines[i]));
            i += 1;
        }
        out
    }

    /// The text as one string: the lines joined by line feeds.
    pub fn content(&self) -> (out: String)
        ensures
            out@ == self@.content(),
    {
        let joined = join_lines_exec(&self.lines);
        string_of(&joined)
    }

    /// The position of the cursor.
    pub fn cursor(&self) -> (p: Position)
        ensures
            p@ == self@.cursor,
    {
        self.cursor
    }

    /// The anchor of the selection, if one is open.
    pub fn selection_start(&self) -> (a: Option<Position>)
        ensures
            match a {
                Some(p) => self@.selection == Some(p@),
                None => self@.selection is None,
            },
    {
        self.selection
    }

    /// Whether a selection is open.
    pub fn is_selecting(&self) -> (b: bool)
        ensures
            b == self@.selection is Some,
    {
        self.selection.is_some()
    }

    /// The register as one string.
    pub fn yank_text(&self) -> (out: String)
        ensures
            out@ == self@.yank_text(),
    {
        let joined = join_lines_exec(&self.yank);
        string_of(&joined)
    }

    /// Whether there is an edit to take back.
    pub fn can_undo(&self) -> (b: bool)
        ensures
            b == (self@.undo.len() > 0),
    {
        self.undo.len() > 0
    }

    /// Whether there is an edit to do again.
    pub fn can_redo(&self) -> (b: bool)
        ensures
            b == (self@.redo.len() > 0),
    {
        self.redo.len() > 0
    }

    /// The window on screen.
    pub fn viewport(&self) -> (v: Viewport)
        ensures
            v == self@.viewport,
    {
        self.viewport
    }

    /// Opens a selection at the cursor.
    pub fn start_selection(&mut self)
        requires
            old(self).wf(),
        ensures
            final(self)@ == old(self)@.anchored(),
            final(self).wf(),
    {
        self.selection = Some(self.cursor);
    }

    /// Closes the selection. The cursor stays.
    pub fn cancel_selection(&mut self)
        requires
            old(self).wf(),
        ensures
            final(self)@ == old(self)@.unselected(),
            final(self).wf(),
    {
        self.selection = None;
    }

    /// Moves the cursor. A selection stays open only if `keep` says so.
    pub fn move_cursor(&mut self, m: CursorMove, keep: bool)
        requires
            old(self).wf(),
        ensures
            final(self)@ == old(self)@.moved(m, keep),
            final(self).wf(),
    {
        match next_cursor_exec(&self.lines, self.cursor, m) {
            Some(q) => {
                self.cursor = q;
                if !keep {
                    self.selection = None;
                }
            },
            None => {},
        }
    }

    /// Scrolls the window; the cursor follows it. A selection stays open
    /// only if `keep` says so.
    pub fn scroll(&mut self, s: Scrolling, keep: bool)
        requires
            old(self).wf(),
        ensures
            final(self)@ == old(self)@.scrolled(s, keep),
            final(self).wf(),
    {
        self.viewport = scroll_viewport(self.viewport, s);
        self.cursor = into_viewport_exec(&self.lines, self.cursor, self.viewport);
        if !keep {
            self.selection = None;
        }
    }

    /// Gives the window `height` rows and moves it so that it shows the
    /// cursor.
    pub fn reveal_cursor(&mut self, height: usize)
        requires
            old(self).wf(),
        ensures
            final(self)@ == old(self)@.revealed(height),
            final(self).wf(),
    {
        self.viewport = reveal_row(self.viewport, self.cursor.row, height);
    }

    /// The two ends of the selection, in reading order.
    fn selected(&self) -> (out: Option<(Position, Position)>)
        requires
            self.wf(),
        ensures
            match out {
                Some((a, b)) => self@.selected() == Some((a@, b@)),
                None => self@.selected() is None,
            },
    {
        match self.selection {
            Some(a) => {
                let c = self.cursor;
                if a.row == c.row && a.col == c.col {
                    None
                } else if a.row < c.row || (a.row == c.row && a.col <= c.col) {
                    Some((a, c))
                } else {
                    Some((c, a))
                }
            },
            None => None,
        }
    }

    /// The range that a deleting command removes.
    fn reach(&self, m: CursorMove) -> (out: Option<(Position, Position)>)
        requires
            self.wf(),
        ensures
            match out {
                Some((a, b)) => self@.reach(m) == Some((a@, b@)),
                None => self@.reach(m) is None,
            },
    {
        match self.selected() {
            Some(r) => Some(r),
            None => {
                let c = self.cursor;
                match next_cursor_exec(&self.lines, c, m) {
                    Some(q) => {
                        if q.row == c.row && q.col == c.col {
                            None
                        } else if q.row < c.row || (q.row == c.row && q.col <= c.col) {
                            Some((q, c))
                        } else {
                            Some((c, q))
                        }
                    },
                    None => None,
                }
            },
        }
    }

    /// Puts new text, cursor and register in place and records the state
    /// before on the undo stack.
    fn commit(&mut self, lines: Vec<Vec<char>>, cursor: Position, yank: Option<Vec<Vec<char>>>)
        requires
            old(self).wf(),
            lines.len() >= 1,
            all_lines(lines_of(lines@)),
            in_text(lines_of(lines@), cursor@),
            yank matches Some(y) ==> y.len() >= 1 && all_lines(lines_of(y@)),
        ensures
            final(self)@ == old(self)@.edited(
                lines_of(lines@),
                cursor@,
                match yank {
                    Some(y) => lines_of(y@),
                    None => old(self)@.yank,
                },
            ),
            final(self).wf(),
    {
        let ghost before = self@;
        let mut previous = lines;
        core::mem::swap(&mut self.lines, &mut previous);
        let snapshot = Snapshot { lines: previous, cursor: self.cursor };
        assert(snapshot@ == before.snapshot());
        let ghost undo_before = self.undo@;
        self.undo.push(snapshot);
        assert(snapshots_of(self.undo@) =~= snapshots_of(undo_before).push(snapshot@));
        self.redo = Vec::new();
        assert(snapshots_of(self.redo@) =~= Seq::empty());
        self.cursor = cursor;
        self.selection = None;
        match yank {
            Some(y) => {
                self.yank = y;
            },
            None => {},
        }
        proof {
            lemma_edited_wf(before, lines_of(lines@), cursor@, self@.yank);
        }
    }

    /// Deletes a range, or only closes the selection where there is none.
    fn delete_range(&mut self, range: Option<(Position, Position)>, yank: bool) -> (modified: bool)
        requires
            old(self).wf(),
            range matches Some((a, b)) ==> in_text(old(self)@.lines, a@) && in_text(
                old(self)@.lines,
                b@,
            ) && pos_le(a@, b@),
        ensures
            final(self)@ == old(self)@.delete_range(
                match range {
                    Some((a, b)) => Some((a@, b@)),
                    None => None,
                },
                yank,
            ),
            modified == range is Some,
            final(self).wf(),
    {
        match range {
            Some((a, b)) => {
                proof {
                    lemma_delete_between(self@.lines, a@, b@);
                    lemma_text_between(self@.lines, a@, b@);
                }
                let removed = if yank {
                    Some(text_between_exec(&self.lines, a, b))
                } else {
                    None
                };
                let lines = delete_between_exec(&self.lines, a, b);
                self.commit(lines, a, removed);
                true
            },
            None => {
                self.selection = None;
                false
            },
        }
    }

    /// Inserts the lines of `chunk` in place of the selection, or at the
    /// cursor.
    fn insert_chunk(&mut self, chunk: &Vec<Vec<char>>)
        requires
            old(self).wf(),
            chunk.len() >= 1,
            all_lines(lines_of(chunk@)),
        ensures
            final(self)@ == old(self)@.inserted(lines_of(chunk@)),
            final(self).wf(),
    {
        proof {
            lemma_selected(self@);
            lemma_inserted_wf(self@, lines_of(chunk@));
        }
        let ghost base = self@.base();
        let lines = match self.selected() {
            Some((a, b)) => {
                let cleared = delete_between_exec(&self.lines, a, b);
                let out = insert_at_exec(&cleared, a, chunk);
                (out, a, cleared.len(), cleared[a.row].len())
            },
            None => {
                let p = self.cursor;
                let out = insert_at_exec(&self.lines, p, chunk);
                (out, p, self.lines.len(), self.lines[p.row].len())
            },
        };
        let (out, p, rows, len) = lines;
        proof {
            lemma_insert_at(base.0, base.1, lines_of(chunk@));
            assert(lines_of(out@).len() == out.len());
            assert(lines_of(chunk@).len() == chunk.len());
        }
        let row = out.len() - (rows - p.row);
        assert(lines_of(out@)[row as int] == out@[row as int]@);
        let col = out[row].len() - (len - p.col);
        let end = Position { row, col };
        assert(end@ == insert_end(base.1, lines_of(chunk@)));
        self.commit(out, end, None);
    }

    /// Types a character; a line feed or carriage return breaks the line.
    pub fn insert_char(&mut self, c: char)
        requires
            old(self).wf(),
        ensures
            final(self)@ == old(self)@.insert_char(c),
            final(self).wf(),
    {
        let mut chunk: Vec<Vec<char>> = Vec::new();
        if c == '\n' || c == '\r' {
            chunk.push(Vec::new());
            chunk.push(Vec::new());
        } else {
            let mut line: Vec<char> = Vec::new();
            line.push(c);
            chunk.push(line);
        }
        assert(lines_of(chunk@) =~= BufferView::typed(c));
        proof {
            lemma_typed(c);
        }
        self.insert_chunk(&chunk);
    }

    /// Breaks the line at the cursor.
    pub fn insert_newline(&mut self)
        requires
            old(self).wf(),
        ensures
            final(self)@ == old(self)@.insert_newline(),
            final(self).wf(),
    {
        let mut chunk: Vec<Vec<char>> = Vec::new();
        chunk.push(Vec::new());
        chunk.push(Vec::new());
        assert(lines_of(chunk@) =~= line_break());
        proof {
            lemma_typed('\n');
        }
        self.insert_chunk(&chunk);
    }

    /// Inserts spaces up to the next stop of the tabulator.
    pub fn insert_tab(&mut self)
        requires
            old(self).wf(),
        ensures
            final(self)@ == old(self)@.insert_tab(),
            final(self).wf(),
    {
        let col = match self.selected() {
            Some((a, _)) => a.col,
            None => self.cursor.col,
        };
        let n = TAB_WIDTH - col % TAB_WIDTH;
        let mut line: Vec<char> = Vec::new();
        let mut i: usize = 0;
        while i < n
            invariant
                i <= n,
                line@ == Seq::new(i as nat, |k: int| ' '),
            decreases n - i,
        {
            line.push(' ');
            assert(line@ =~= Seq::new((i + 1) as nat, |k: int| ' '));
            i += 1;
        }
        let mut chunk: Vec<Vec<char>> = Vec::new();
        chunk.push(line);
        assert(lines_of(chunk@) =~= spaces(n as int));
        proof {
            lemma_spaces(n as int);
        }
        self.insert_chunk(&chunk);
    }

    /// Inserts a text, split into lines at its line feeds. Returns whether
    /// the text held anything to insert; if not, nothing changes.
    pub fn insert_str(&mut self, text: &str) -> (modified: bool)
        requires
            old(self).wf(),
        ensures
            final(self)@ == old(self)@.insert_str(text@),
            modified == BufferView::accepts(text@),
            final(self).wf(),
    {
        let chars = chars_of(text);
        let chunk = split_text_exec(&chars);
        proof {
            lemma_split_text_lines(text@);
            assert(lines_of(chunk@).len() == chunk.len());
        }
        if chunk.len() == 1 && chunk[0].len() == 0 {
            false
        } else {
            self.insert_chunk(&chunk);
            true
        }
    }

    /// Inserts the register. Returns whether it held anything; if not,
    /// nothing changes.
    pub fn paste(&mut self) -> (modified: bool)
        requires
            old(self).wf(),
        ensures
            final(self)@ == old(self)@.paste(),
            modified == old(self)@.can_paste(),
            final(self).wf(),
    {
        assert(lines_of(self.yank@).len() == self.yank.len());
        if self.yank.len() == 1 && self.yank[0].len() == 0 {
            false
        } else {
            let chunk = copy_lines(&self.yank);
            self.insert_chunk(&chunk);
            true
        }
    }

    /// Adds a last line and puts the cursor at its end.
    pub fn append_line(&mut self, line: Vec<char>)
        requires
            old(self).wf(),
            is_line(line@),
        ensures
            final(self)@ == old(self)@.append_line(line@),
            final(self).wf(),
    {
        proof {
            lemma_operations_wf(self@);
        }
        let mut lines = copy_lines(&self.lines);
        let ghost copied = lines@;
        let cursor = Position { row: lines.len(), col: line.len() };
        lines.push(line);
        assert(lines_of(lines@) =~= lines_of(copied).push(line@));
        assert(lines_of(lines@) == self@.lines.push(line@));
        assert(self@.append_line(line@).wf());
        self.commit(lines, cursor, None);
    }

    /// Replaces the whole text by the lines of `content` and puts the cursor
    /// at the end. This is an edit: undo brings the text of before back.
    pub fn set_content(&mut self, content: &str)
        requires
            old(self).wf(),
        ensures
            final(self)@ == old(self)@.edited(
                initial_lines(content@),
                Pos {
                    row: initial_lines(content@).len() - 1,
                    col: initial_lines(content@).last().len() as int,
                },
                old(self)@.yank,
            ),
            final(self).wf(),
    {
        let text = chars_of(content);
        let mut lines = content_lines_exec(&text);
        proof {
            lemma_content_lines(content@);
        }
        if lines.len() == 0 {
            lines.push(Vec::new());
            assert(lines_of(lines@) =~= seq![Seq::<char>::empty()]);
            assert(is_line(Seq::<char>::empty()));
        }
        assert(lines_of(lines@) == initial_lines(content@));
        let row = lines.len() - 1;
        assert(lines_of(lines@)[row as int] == lines@[row as int]@);
        let cursor = Position { row, col: lines[row].len() };
        self.commit(lines, cursor, None);
    }

    /// The backspace key: deletes the selection, or the character or line
    /// break before the cursor. Returns whether there was anything to
    /// delete.
    pub fn delete_char(&mut self) -> (modified: bool)
        requires
            old(self).wf(),
        ensures
            final(self)@ == old(self)@.delete_char(),
            modified == old(self)@.char_before() is Some,
            final(self).wf(),
    {
        proof {
            lemma_reach(self@, CursorMove::Back);
        }
        let range = self.reach(CursorMove::Back);
        self.delete_range(range, false)
    }

    /// The delete key: deletes the selection, or the character or line
    /// break at the cursor; with `yank`, into the register. Returns whether
    /// there was anything to delete.
    pub fn delete_next_char(&mut self, yank: bool) -> (modified: bool)
        requires
            old(self).wf(),
        ensures
            final(self)@ == old(self)@.delete_next_char(yank),
            modified == old(self)@.char_after() is Some,
            final(self).wf(),
    {
        proof {
            lemma_reach(self@, CursorMove::Forward);
        }
        let range = self.reach(CursorMove::Forward);
        self.delete_range(range, yank)
    }

    /// Deletes the selection, or from the cursor to the end of the line, or
    /// the line break if the cursor stands there, into the register.
    /// Returns whether there was anything to delete.
    pub fn delete_line_by_end(&mut self) -> (modified: bool)
        requires
            old(self).wf(),
        ensures
            final(self)@ == old(self)@.delete_line_by_end(),
            modified == old(self)@.line_rest() is Some,
            final(self).wf(),
    {
        proof {
            lemma_reach(self@, CursorMove::Forward);
            lemma_reach(self@, CursorMove::End);
        }
        assert(lines_of(self.lines@)[self.cursor.row as int] == self.lines@[self.cursor.row as int]@);
        let range = if self.cursor.col < self.lines[self.cursor.row].len() {
            self.reach(CursorMove::End)
        } else {
            self.reach(CursorMove::Forward)
        };
        self.delete_range(range, true)
    }

    /// Cuts the selection into the register and closes it. Returns whether
    /// anything was selected.
    pub fn cut(&mut self) -> (modified: bool)
        requires
            old(self).wf(),
        ensures
            final(self)@ == old(self)@.cut(),
            modified == old(self)@.selected() is Some,
            final(self).wf(),
    {
        proof {
            lemma_selected(self@);
        }
        let range = self.selected();
        self.delete_range(range, true)
    }

    /// Copies the selection into the register and closes it.
    pub fn copy(&mut self)
        requires
            old(self).wf(),
        ensures
            final(self)@ == old(self)@.copy(),
            final(self).wf(),
    {
        proof {
            lemma_selected(self@);
            lemma_operations_wf(self@);
        }
        match self.selected() {
            Some((a, b)) => {
                self.yank = text_between_exec(&self.lines, a, b);
            },
            None => {},
        }
        self.selection = None;
    }

    /// Takes back the last edit. Returns whether there was one.
    pub fn undo(&mut self) -> (modified: bool)
        requires
            old(self).wf(),
        ensures
            final(self)@ == old(self)@.undo(),
            modified == (old(self)@.undo.len() > 0),
            final(self).wf(),
    {
        proof {
            lemma_operations_wf(self@);
        }
        let ghost before = self@;
        let ghost undo_before = self.undo@;
        match self.undo.pop() {
            Some(snapshot) => {
                assert(snapshot@ == before.undo.last());
                assert(snapshots_of(self.undo@) =~= before.undo.drop_last());
                let Snapshot { lines, cursor } = snapshot;
                let mut previous = lines;
                core::mem::swap(&mut self.lines, &mut previous);
                let present = Snapshot { lines: previous, cursor: self.cursor };
                let ghost redo_before = self.redo@;
                self.redo.push(present);
                assert(snapshots_of(self.redo@) =~= snapshots_of(redo_before).push(present@));
                self.cursor = cursor;
                self.selection = None;
                true
            },
            None => false,
        }
    }

    /// Does again what the last undo took back. Returns whether there was
    /// anything to do again.
    pub fn redo(&mut self) -> (modified: bool)
        requires
            old(self).wf(),
        ensures
            final(self)@ == old(self)@.redo(),
            modified == (old(self)@.redo.len() > 0),
            final(self).wf(),
    {
        proof {
            lemma_operations_wf(self@);
        }
        let ghost before = self@;
        match self.redo.pop() {
            Some(snapshot) => {
                assert(snapshot@ == before.redo.last());
                assert(snapshots_of(self.redo@) =~= before.redo.drop_last());
                let Snapshot { lines, cursor } = snapshot;
                let mut previous = lines;
                core::mem::swap(&mut self.lines, &mut previous);
                let present = Snapshot { lines: previous, cursor: self.cursor };
                let ghost undo_before = self.undo@;
                self.undo.push(present);
                assert(snapshots_of(self.undo@) =~= snapshots_of(undo_before).push(present@));
                self.cursor = cursor;
                self.selection = None;
                true
            },
            None => false,
        }
    }
}

impl BufferView {
    /// The buffer after an action.
    pub open spec fn apply(self, action: Action) -> BufferView {
        match action {
            Action::Insert(c) => self.insert_char(c),
            Action::Newline => self.insert_newline(),
            Action::Tab => self.insert_tab(),
            Action::Backspace => self.delete_char(),
            Action::Delete => self.delete_next_char(false),
            Action::DeleteLineEnd => self.delete_line_by_end(),
            Action::Move { to, keep } => self.moved(to, keep),
            Action::Scroll { by, keep } => self.scrolled(by, keep),
            Action::Undo => self.undo(),
            Action::Redo => self.redo(),
            Action::Paste => self.paste(),
            Action::Cut => self.cut(),
            Action::Copy => self.copy(),
            Action::Ignore => self,
        }
    }

    /// Whether an action changes the text or the history.
    pub open spec fn modifies(self, action: Action) -> bool {
        match action {
            Action::Insert(_) | Action::Newline | Action::Tab => true,
            Action::Backspace => self.char_before() is Some,
            Action::Delete => self.char_after() is Some,
            Action::DeleteLineEnd => self.line_rest() is Some,
            Action::Move { .. } | Action::Scroll { .. } | Action::Copy | Action::Ignore => false,
            Action::Undo => self.undo.len() > 0,
            Action::Redo => self.redo.len() > 0,
            Action::Paste => self.can_paste(),
            Action::Cut => self.selected() is Some,
        }
    }

    /// The buffer after a key of the default key map.
    pub open spec fn input(self, input: Input) -> BufferView {
        self.apply(default_action(input))
    }
}

impl Buffer {
    /// Performs an action. Returns whether the text or the history changed.
    pub fn apply(&mut self, action: Action) -> (modified: bool)
        requires
            old(self).wf(),
        ensures
            final(self)@ == old(self)@.apply(action),
            modified == old(self)@.modifies(action),
            final(self).wf(),
    {
        match action {
            Action::Insert(c) => {
                self.insert_char(c);
                true
            },
            Action::Newline => {
                self.insert_newline();
                true
            },
            Action::Tab => {
                self.insert_tab();
                true
            },
            Action::Backspace => self.delete_char(),
            Action::Delete => self.delete_next_char(false),
            Action::DeleteLineEnd => self.delete_line_by_end(),
            Action::Move { to, keep } => {
                self.move_cursor(to, keep);
                false
            },
            Action::Scroll { by, keep } => {
                self.scroll(by, keep);
                false
            },
            Action::Undo => self.undo(),
            Action::Redo => self.redo(),
            Action::Paste => self.paste(),
            Action::Cut => self.cut(),
            Action::Copy => {
                self.copy();
                false
            },
            Action::Ignore => false,
        }
    }

    /// Handles a key by the default key map. Returns whether the text or
    /// the history changed.
    pub fn input(&mut self, input: &Input) -> (modified: bool)
        requires
            old(self).wf(),
        ensures
            final(self)@ == old(self)@.input(*input),
            modified == old(self)@.modifies(default_action(*input)),
            final(self).wf(),
    {
        self.apply(default_action_exec(input))
    }
}

} // verus!
