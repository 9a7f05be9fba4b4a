//! The buffer as a mathematical value, and every operation on it as a
//! function from the value before to the value after.
//!
//! The executable `Buffer` promises, operation by operation, that its view
//! changes as the function of the same name says here.  The laws at the end of
//! the file are stated over these functions.

use vstd::prelude::*;
use crate::motion::{
    into_viewport,
    lemma_next_cursor,
    next_cursor,
    revealing_top,
    scrolled_top,
    CursorMove,
    Scrolling,
    Viewport,
};
use crate::region::{
    delete_between,
    in_text,
    insert_at,
    insert_end,
    lemma_delete_between,
    lemma_insert_at,
    lemma_insert_deleted,
    lemma_text_between,
    pos_le,
    text_between,
    Pos,
};
use crate::text::{
    all_lines,
    is_line,
    join_lines,
    lemma_split_raw_join,
    lemma_split_text_lines,
    split_raw,
    split_text,
    strip_cr,
};

verus! {

/// The columns between two stops of the soft tabulator.
pub const TAB_WIDTH: usize = 4;

/// The text and the cursor at one moment: what undo and redo bring back.
pub struct SnapshotView {
    pub lines: Seq<Seq<char>>,
    pub cursor: Pos,
}

impl SnapshotView {
    /// At least one line, none with a line feed, and the cursor in the text.
    pub open spec fn wf(self) -> bool {
        &&& self.lines.len() >= 1
        &&& all_lines(self.lines)
        &&& in_text(self.lines, self.cursor)
    }
}

/// What a buffer is: its lines, the cursor, the anchor of the selection, the
/// register of the last cut or copied text, the two history stacks (the most
/// recent snapshot last), and the window on screen.
pub struct BufferView {
    pub lines: Seq<Seq<char>>,
    pub cursor: Pos,
    pub selection: Option<Pos>,
    pub yank: Seq<Seq<char>>,
    pub undo: Seq<SnapshotView>,
    pub redo: Seq<SnapshotView>,
    pub viewport: Viewport,
}

/// A register or a pasted text that holds nothing: one empty line.
pub open spec fn is_blank_chunk(chunk: Seq<Seq<char>>) -> bool {
    chunk.len() == 1 && chunk[0].len() == 0
}

/// A line break, as a chunk to insert: two empty lines.
pub open spec fn line_break() -> Seq<Seq<char>> {
    seq![Seq::<char>::empty(), Seq::<char>::empty()]
}

/// `n` spaces, as a chunk to insert.
pub open spec fn spaces(n: int) -> Seq<Seq<char>> {
    seq![Seq::new(n as nat, |i: int| ' ')]
}

impl BufferView {
    /// The buffer that holds `lines`, with the cursor at `cursor` and
    /// everything else empty.
    pub open spec fn fresh(lines: Seq<Seq<char>>, cursor: Pos) -> BufferView {
        BufferView {
            lines,
            cursor,
            selection: None,
            yank: seq![Seq::<char>::empty()],
            undo: Seq::empty(),
            redo: Seq::empty(),
            viewport: Viewport { top: 0, height: 0 },
        }
    }

    /// The invariant of a buffer: there is at least one line and none holds a
    /// line feed; cursor and anchor lie in the text; the register holds at
    /// least one line; every snapshot is a text with its cursor.
    pub open spec fn wf(self) -> bool {
        &&& self.lines.len() >= 1
        &&& all_lines(self.lines)
        &&& in_text(self.lines, self.cursor)
        &&& (self.selection matches Some(a) ==> in_text(self.lines, a))
        &&& self.yank.len() >= 1
        &&& all_lines(self.yank)
        &&& forall|i: int| 0 <= i < self.undo.len() ==> (#[trigger] self.undo[i]).wf()
        &&& forall|i: int| 0 <= i < self.redo.len() ==> (#[trigger] self.redo[i]).wf()
    }

    /// The text and the cursor as they are now.
    pub open spec fn snapshot(self) -> SnapshotView {
        SnapshotView { lines: self.lines, cursor: self.cursor }
    }

    /// The two ends of the selection in reading order; `None` without an
    /// anchor, and where the anchor is the cursor.
    pub open spec fn selected(self) -> Option<(Pos, Pos)> {
        match self.selection {
            Some(a) => if a == self.cursor {
                None
            } else if pos_le(a, self.cursor) {
                Some((a, self.cursor))
            } else {
                Some((self.cursor, a))
            },
            None => None,
        }
    }

    /// The selected text, as lines; one empty line where nothing is selected.
    pub open spec fn selected_text(self) -> Seq<Seq<char>> {
        match self.selected() {
            Some((a, b)) => text_between(self.lines, a, b),
            None => seq![Seq::<char>::empty()],
        }
    }

    /// The same buffer without an anchor.
    pub open spec fn unselected(self) -> BufferView {
        BufferView { selection: None, ..self }
    }

    /// The same buffer with the anchor at the cursor.
    pub open spec fn anchored(self) -> BufferView {
        BufferView { selection: Some(self.cursor), ..self }
    }

    /// The buffer after an edit: new text, cursor and register; no anchor;
    /// the state before the edit on top of the undo stack; nothing to redo.
    pub open spec fn edited(
        self,
        lines: Seq<Seq<char>>,
        cursor: Pos,
        yank: Seq<Seq<char>>,
    ) -> BufferView {
        BufferView {
            lines,
            cursor,
            selection: None,
            yank,
            undo: self.undo.push(self.snapshot()),
            redo: Seq::empty(),
            viewport: self.viewport,
        }
    }

    /// A move of the cursor. The text stays. Where the move cannot be made
    /// nothing changes; else the anchor stays only if `keep` says so.
    pub open spec fn moved(self, m: CursorMove, keep: bool) -> BufferView {
        match next_cursor(self.lines, self.cursor, m) {
            Some(q) => BufferView {
                cursor: q,
                selection: if keep {
                    self.selection
                } else {
                    None
                },
                ..self
            },
            None => self,
        }
    }

    /// Scrolling: the window moves, and the cursor follows it into the
    /// window. The anchor stays only if `keep` says so.
    pub open spec fn scrolled(self, s: Scrolling, keep: bool) -> BufferView {
        let viewport = Viewport { top: scrolled_top(self.viewport, s) as usize, ..self.viewport };
        BufferView {
            cursor: into_viewport(self.lines, self.cursor, viewport),
            selection: if keep {
                self.selection
            } else {
                None
            },
            viewport,
            ..self
        }
    }

    /// The window given `height` rows and moved, as little as possible, so
    /// that it shows the cursor.
    pub open spec fn revealed(self, height: usize) -> BufferView {
        BufferView {
            viewport: Viewport {
                top: revealing_top(
                    self.viewport.top as int,
                    self.cursor.row,
                    height as int,
                ) as usize,
                height,
            },
            ..self
        }
    }

    /// The text and the position at which an insertion takes place: the
    /// selection, if there is one, goes first.
    pub open spec fn base(self) -> (Seq<Seq<char>>, Pos) {
        match self.selected() {
            Some((a, b)) => (delete_between(self.lines, a, b), a),
            None => (self.lines, self.cursor),
        }
    }

    /// The lines of `chunk` take the place of the selection, or are inserted
    /// at the cursor; the cursor stands behind them.
    pub open spec fn inserted(self, chunk: Seq<Seq<char>>) -> BufferView {
        let (ls, p) = self.base();
        self.edited(insert_at(ls, p, chunk), insert_end(p, chunk), self.yank)
    }

    /// What typing a character inserts: the character, or a line break for a
    /// line feed or carriage return.
    pub open spec fn typed(c: char) -> Seq<Seq<char>> {
        if c == '\n' || c == '\r' {
            line_break()
        } else {
            seq![seq![c]]
        }
    }

    /// Typing a character.
    pub open spec fn insert_char(self, c: char) -> BufferView {
        self.inserted(Self::typed(c))
    }

    /// Breaking the line at the cursor.
    pub open spec fn insert_newline(self) -> BufferView {
        self.inserted(line_break())
    }

    /// The spaces that lead from the insertion point to the next stop of the
    /// tabulator.
    pub open spec fn insert_tab(self) -> BufferView {
        self.inserted(spaces(TAB_WIDTH - self.base().1.col % (TAB_WIDTH as int)))
    }

    /// Whether `text` holds anything to insert.
    pub open spec fn accepts(text: Seq<char>) -> bool {
        !is_blank_chunk(split_text(text))
    }

    /// Inserting a text, split into lines at its line feeds. A text that
    /// holds nothing to insert changes nothing.
    pub open spec fn insert_str(self, text: Seq<char>) -> BufferView {
        if Self::accepts(text) {
            self.inserted(split_text(text))
        } else {
            self
        }
    }

    /// Whether pasting changes anything: whether the register holds text.
    pub open spec fn can_paste(self) -> bool {
        !is_blank_chunk(self.yank)
    }

    /// Inserting the register. An empty register changes nothing.
    pub open spec fn paste(self) -> BufferView {
        if self.can_paste() {
            self.inserted(self.yank)
        } else {
            self
        }
    }

    /// A new last line, with the cursor at its end.
    pub open spec fn append_line(self, line: Seq<char>) -> BufferView {
        self.edited(
            self.lines.push(line),
            Pos { row: self.lines.len() as int, col: line.len() as int },
            self.yank,
        )
    }

    /// The text from `a` up to `b` leaves the buffer, into the register if
    /// `yank` says so; the cursor stands where it was.
    pub open spec fn deleted(self, a: Pos, b: Pos, yank: bool) -> BufferView {
        self.edited(
            delete_between(self.lines, a, b),
            a,
            if yank {
                text_between(self.lines, a, b)
            } else {
                self.yank
            },
        )
    }

    /// The range that a deleting command removes: the selection if there is
    /// one, else from the cursor as far as the move `m` leads (from there to
    /// the cursor, if it leads back).
    pub open spec fn reach(self, m: CursorMove) -> Option<(Pos, Pos)> {
        match self.selected() {
            Some(r) => Some(r),
            None => match next_cursor(self.lines, self.cursor, m) {
                Some(q) => if q == self.cursor {
                    None
                } else if pos_le(q, self.cursor) {
                    Some((q, self.cursor))
                } else {
                    Some((self.cursor, q))
                },
                None => None,
            },
        }
    }

    /// Deleting a range, or only dropping the anchor where there is none.
    pub open spec fn delete_range(self, range: Option<(Pos, Pos)>, yank: bool) -> BufferView {
        match range {
            Some((a, b)) => self.deleted(a, b, yank),
            None => self.unselected(),
        }
    }

    /// The range of the backspace key: the selection, or the character or
    /// line break before the cursor.
    pub open spec fn char_before(self) -> Option<(Pos, Pos)> {
        self.reach(CursorMove::Back)
    }

    /// The range of the delete key: the selection, or the character or line
    /// break at the cursor.
    pub open spec fn char_after(self) -> Option<(Pos, Pos)> {
        self.reach(CursorMove::Forward)
    }

    /// The range from the cursor to the end of the line: the selection if
    /// there is one; the line break if the cursor stands at the end.
    pub open spec fn line_rest(self) -> Option<(Pos, Pos)> {
        if self.cursor.col < self.lines[self.cursor.row].len() {
            self.reach(CursorMove::End)
        } else {
            self.reach(CursorMove::Forward)
        }
    }

    /// The backspace key.
    pub open spec fn delete_char(self) -> BufferView {
        self.delete_range(self.char_before(), false)
    }

    /// The delete key; with `yank`, what it removes goes to the register.
    pub open spec fn delete_next_char(self, yank: bool) -> BufferView {
        self.delete_range(self.char_after(), yank)
    }

    /// Deleting to the end of the line; what it removes goes to the
    /// register.
    pub open spec fn delete_line_by_end(self) -> BufferView {
        self.delete_range(self.line_rest(), true)
    }

    /// Cutting the selection into the register.
    pub open spec fn cut(self) -> BufferView {
        self.delete_range(self.selected(), true)
    }

    /// Copying the selection into the register. The anchor is dropped.
    pub open spec fn copy(self) -> BufferView {
        match self.selected() {
            Some((a, b)) => BufferView {
                yank: text_between(self.lines, a, b),
                selection: None,
                ..self
            },
            None => self.unselected(),
        }
    }

    /// Taking back the last edit: the state on top of the undo stack returns,
    /// and the present one goes on top of the redo stack.
    pub open spec fn undo(self) -> BufferView {
        if self.undo.len() == 0 {
            self
        } else {
            BufferView {
                lines: self.undo.last().lines,
                cursor: self.undo.last().cursor,
                selection: None,
                undo: self.undo.drop_last(),
                redo: self.redo.push(self.snapshot()),
                ..self
            }
        }
    }

    /// Doing again what undo took back.
    pub open spec fn redo(self) -> BufferView {
        if self.redo.len() == 0 {
            self
        } else {
            BufferView {
                lines: self.redo.last().lines,
                cursor: self.redo.last().cursor,
                selection: None,
                undo: self.undo.push(self.snapshot()),
                redo: self.redo.drop_last(),
                ..self
            }
        }
    }

    /// The text as one string: the lines joined by line feeds.
    pub open spec fn content(self) -> Seq<char> {
        join_lines(self.lines)
    }

    /// The register as one string.
    pub open spec fn yank_text(self) -> Seq<char> {
        join_lines(self.yank)
    }
}

/// The ends of a selection lie in the text, in reading order, and apart.
pub proof fn lemma_selected(v: BufferView)
    requires
        v.wf(),
    ensures
        v.selected() matches Some((a, b)) ==> in_text(v.lines, a) && in_text(v.lines, b) && pos_le(
            a,
            b,
        ) && a != b,
{
}

/// The range of a deleting command lies in the text, in reading order.
pub proof fn lemma_reach(v: BufferView, m: CursorMove)
    requires
        v.wf(),
    ensures
        v.reach(m) matches Some((a, b)) ==> in_text(v.lines, a) && in_text(v.lines, b) && pos_le(
            a,
            b,
        ) && a != b,
{
    lemma_next_cursor(v.lines, v.cursor, m);
}

/// An edit that leaves a text with its cursor and a register of lines keeps
/// the invariant.
pub proof fn lemma_edited_wf(
    v: BufferView,
    lines: Seq<Seq<char>>,
    cursor: Pos,
    yank: Seq<Seq<char>>,
)
    requires
        v.wf(),
        lines.len() >= 1,
        all_lines(lines),
        in_text(lines, cursor),
        yank.len() >= 1,
        all_lines(yank),
    ensures
        v.edited(lines, cursor, yank).wf(),
{
    let e = v.edited(lines, cursor, yank);
    assert forall|i: int| 0 <= i < e.undo.len() implies (#[trigger] e.undo[i]).wf() by {
        if i < v.undo.len() {
            assert(e.undo[i] == v.undo[i]);
        }
    }
}

/// Moving and scrolling keep the invariant, the text, the register and the
/// history.
pub proof fn lemma_moved_wf(v: BufferView, m: CursorMove, keep: bool)
    requires
        v.wf(),
    ensures
        v.moved(m, keep).wf(),
        v.moved(m, keep).lines == v.lines,
        v.moved(m, keep).yank == v.yank,
        v.moved(m, keep).undo == v.undo,
        v.moved(m, keep).redo == v.redo,
{
    lemma_next_cursor(v.lines, v.cursor, m);
}

/// Scrolling keeps the invariant, the text, the register and the history.
pub proof fn lemma_scrolled_wf(v: BufferView, s: Scrolling, keep: bool)
    requires
        v.wf(),
    ensures
        v.scrolled(s, keep).wf(),
        v.scrolled(s, keep).lines == v.lines,
        v.scrolled(s, keep).yank == v.yank,
        v.scrolled(s, keep).undo == v.undo,
        v.scrolled(s, keep).redo == v.redo,
{
}

/// Inserting lines keeps the invariant.
pub proof fn lemma_inserted_wf(v: BufferView, chunk: Seq<Seq<char>>)
    requires
        v.wf(),
        chunk.len() >= 1,
        all_lines(chunk),
    ensures
        v.inserted(chunk).wf(),
        in_text(v.base().0, v.base().1),
        v.base().0.len() >= 1,
        all_lines(v.base().0),
{
    lemma_selected(v);
    let (ls, p) = v.base();
    if let Some((a, b)) = v.selected() {
        lemma_delete_between(v.lines, a, b);
    }
    lemma_insert_at(ls, p, chunk);
    lemma_edited_wf(v, insert_at(ls, p, chunk), insert_end(p, chunk), v.yank);
}

/// Deleting a range keeps the invariant.
pub proof fn lemma_delete_range_wf(v: BufferView, range: Option<(Pos, Pos)>, yank: bool)
    requires
        v.wf(),
        range matches Some((a, b)) ==> in_text(v.lines, a) && in_text(v.lines, b) && pos_le(a, b),
    ensures
        v.delete_range(range, yank).wf(),
{
    if let Some((a, b)) = range {
        lemma_delete_between(v.lines, a, b);
        lemma_text_between(v.lines, a, b);
        lemma_edited_wf(
            v,
            delete_between(v.lines, a, b),
            a,
            if yank {
                text_between(v.lines, a, b)
            } else {
                v.yank
            },
        );
    }
}

/// What typing inserts is a chunk of lines.
pub proof fn lemma_typed(c: char)
    ensures
        BufferView::typed(c).len() >= 1,
        all_lines(BufferView::typed(c)),
{
    let t = BufferView::typed(c);
    assert forall|i: int| 0 <= i < t.len() implies is_line(#[trigger] t[i]) by {}
}

/// Spaces are a chunk of one line.
pub proof fn lemma_spaces(n: int)
    ensures
        spaces(n).len() == 1,
        all_lines(spaces(n)),
{
    let t = spaces(n);
    assert forall|i: int| 0 <= i < t.len() implies is_line(#[trigger] t[i]) by {}
}

/// Every operation keeps the invariant of the buffer.
pub proof fn lemma_operations_wf(v: BufferView)
    requires
        v.wf(),
    ensures
        v.unselected().wf(),
        v.anchored().wf(),
        forall|c: char| (#[trigger] v.insert_char(c)).wf(),
        v.insert_newline().wf(),
        v.insert_tab().wf(),
        forall|t: Seq<char>| (#[trigger] v.insert_str(t)).wf(),
        v.paste().wf(),
        forall|l: Seq<char>| is_line(l) ==> (#[trigger] v.append_line(l)).wf(),
        v.delete_char().wf(),
        forall|y: bool| (#[trigger] v.delete_next_char(y)).wf(),
        v.delete_line_by_end().wf(),
        v.cut().wf(),
        v.copy().wf(),
        v.undo().wf(),
        v.redo().wf(),
        forall|h: usize| (#[trigger] v.revealed(h)).wf(),
{
    lemma_selected(v);
    lemma_reach(v, CursorMove::Back);
    lemma_reach(v, CursorMove::Forward);
    lemma_reach(v, CursorMove::End);
    assert forall|c: char| (#[trigger] v.insert_char(c)).wf() by {
        lemma_typed(c);
        lemma_inserted_wf(v, BufferView::typed(c));
    }
    assert(v.insert_newline().wf()) by {
        lemma_typed('\n');
        lemma_inserted_wf(v, line_break());
    }
    assert(v.insert_tab().wf()) by {
        let n = TAB_WIDTH - v.base().1.col % (TAB_WIDTH as int);
        lemma_spaces(n);
        lemma_inserted_wf(v, spaces(n));
    }
    assert forall|t: Seq<char>| (#[trigger] v.insert_str(t)).wf() by {
        lemma_split_text_lines(t);
        lemma_inserted_wf(v, split_text(t));
    }
    assert(v.paste().wf()) by {
        lemma_inserted_wf(v, v.yank);
    }
    assert forall|l: Seq<char>| is_line(l) implies (#[trigger] v.append_line(l)).wf() by {
        let ls = v.lines.push(l);
        assert forall|i: int| 0 <= i < ls.len() implies is_line(#[trigger] ls[i]) by {
            if i < v.lines.len() {
                assert(ls[i] == v.lines[i]);
            }
        }
        lemma_edited_wf(v, ls, Pos { row: v.lines.len() as int, col: l.len() as int }, v.yank);
    }
    lemma_delete_range_wf(v, v.char_before(), false);
    assert forall|y: bool| (#[trigger] v.delete_next_char(y)).wf() by {
        lemma_delete_range_wf(v, v.char_after(), y);
    }
    lemma_delete_range_wf(v, v.line_rest(), true);
    lemma_delete_range_wf(v, v.selected(), true);
    assert(v.copy().wf()) by {
        if let Some((a, b)) = v.selected() {
            lemma_text_between(v.lines, a, b);
        }
    }
    assert(v.undo().wf()) by {
        if v.undo.len() > 0 {
            let u = v.undo();
            assert(v.undo.last().wf());
            assert forall|i: int| 0 <= i < u.undo.len() implies (#[trigger] u.undo[i]).wf() by {
                assert(u.undo[i] == v.undo[i]);
            }
            assert forall|i: int| 0 <= i < u.redo.len() implies (#[trigger] u.redo[i]).wf() by {
                if i < v.redo.len() {
                    assert(u.redo[i] == v.redo[i]);
                }
            }
        }
    }
    assert(v.redo().wf()) by {
        if v.redo.len() > 0 {
            let u = v.redo();
            assert(v.redo.last().wf());
            assert forall|i: int| 0 <= i < u.redo.len() implies (#[trigger] u.redo[i]).wf() by {
                assert(u.redo[i] == v.redo[i]);
            }
            assert forall|i: int| 0 <= i < u.undo.len() implies (#[trigger] u.undo[i]).wf() by {
                if i < v.undo.len() {
                    assert(u.undo[i] == v.undo[i]);
                }
            }
        }
    }
}

/// Cut and then paste gives back the text, with the cursor behind what was
/// selected.
pub proof fn lemma_cut_paste(v: BufferView)
    requires
        v.wf(),
        v.selected() is Some,
    ensures
        v.cut().paste().lines == v.lines,
        v.selected() matches Some((a, b)) && v.cut().paste().cursor == b,
        v.cut().yank == v.selected_text(),
{
    lemma_selected(v);
    let (a, b) = v.selected()->0;
    lemma_insert_deleted(v.lines, a, b);
    lemma_delete_between(v.lines, a, b);
    lemma_text_between(v.lines, a, b);
    let t = text_between(v.lines, a, b);
    assert(!is_blank_chunk(t)) by {
        if a.row == b.row {
            assert(t[0].len() == b.col - a.col);
        }
    }
}

/// The text of a register, split as a pasted text is split, is the register
/// again, unless one of its lines ends in a carriage return.
pub proof fn lemma_split_joined(chunk: Seq<Seq<char>>)
    requires
        chunk.len() >= 1,
        all_lines(chunk),
        forall|i: int| 0 <= i < chunk.len() ==> strip_cr(#[trigger] chunk[i]) == chunk[i],
    ensures
        split_text(join_lines(chunk)) == chunk,
{
    lemma_split_raw_join(chunk);
    let s = join_lines(chunk);
    assert(split_raw(s) == chunk);
    assert(split_text(s) =~= chunk);
}

/// Cut, and then the insertion of the text that the cut put into the
/// register (as it comes back from a clipboard), gives back the text, unless
/// a line of what was cut ends in a carriage return.
pub proof fn lemma_cut_insert_str(v: BufferView)
    requires
        v.wf(),
        v.selected() is Some,
        forall|i: int|
            0 <= i < v.selected_text().len() ==> strip_cr(#[trigger] v.selected_text()[i])
                == v.selected_text()[i],
    ensures
        v.cut().insert_str(v.cut().yank_text()).lines == v.lines,
        v.selected() matches Some((a, b)) && v.cut().insert_str(v.cut().yank_text()).cursor == b,
{
    lemma_cut_paste(v);
    lemma_selected(v);
    let (a, b) = v.selected()->0;
    lemma_text_between(v.lines, a, b);
    lemma_split_joined(v.selected_text());
}

/// Copy leaves the text as it is and puts the selected text into the
/// register.
pub proof fn lemma_copy(v: BufferView)
    ensures
        v.copy().lines == v.lines,
        v.copy().cursor == v.cursor,
        v.copy().selection is None,
        v.selected() is Some ==> v.copy().yank == v.selected_text(),
        v.selected() is None ==> v.copy().yank == v.yank,
{
}

} // verus!
