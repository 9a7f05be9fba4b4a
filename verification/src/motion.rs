//! Where the cursor goes: single steps, line ends, words, paragraphs, and the
//! window that scrolling moves over the text.

use vstd::prelude::*;
use crate::region::{in_text, Pos, Position};
use crate::text::lines_of;

verus! {

/// White space: the characters with the Unicode property White_Space.
/// These are the controls from tab to carriage return, the space, next
/// line, the no-break space, the Ogham space mark, the spaces from en quad
/// to hair space, the line and the paragraph separator, the narrow no-break
/// space, the medium mathematical space and the ideographic space.
pub open spec fn whitespace(c: char) -> bool {
    ||| '\u{9}' <= c <= '\u{d}'
    ||| c == ' '
    ||| c == '\u{85}'
    ||| c == '\u{a0}'
    ||| c == '\u{1680}'
    ||| '\u{2000}' <= c <= '\u{200a}'
    ||| c == '\u{2028}'
    ||| c == '\u{2029}'
    ||| c == '\u{202f}'
    ||| c == '\u{205f}'
    ||| c == '\u{3000}'
}

/// `char::is_whitespace` tells whether the character has the property
/// White_Space.
pub assume_specification[ char::is_whitespace ](c: char) -> (b: bool)
    ensures
        b == whitespace(c),
;

/// The classes of characters between which a word boundary lies.
#[derive(Clone, Copy, Debug, PartialEq, Eq, Structural)]
pub enum CharKind {
    Space,
    Punct,
    Other,
}

/// The ASCII punctuation characters: `!` to `/`, `:` to `@`, `[` to the
/// backtick, and `{` to `~`.
pub open spec fn ascii_punctuation(c: char) -> bool {
    ||| '!' <= c <= '/'
    ||| ':' <= c <= '@'
    ||| '[' <= c <= '`'
    ||| '{' <= c <= '~'
}

/// The class of a character: white space first, then ASCII punctuation.
pub open spec fn char_kind(c: char) -> CharKind {
    if whitespace(c) {
        CharKind::Space
    } else if ascii_punctuation(c) {
        CharKind::Punct
    } else {
        CharKind::Other
    }
}

/// A word starts at index `i` of the line: the character there is no white
/// space, and is the first of the line or of another class than the one
/// before it.
pub open spec fn starts_word(line: Seq<char>, i: int) -> bool {
    &&& 0 <= i < line.len()
    &&& char_kind(line[i]) != CharKind::Space
    &&& (i == 0 || char_kind(line[i - 1]) != char_kind(line[i]))
}

/// The least index from `from` on at which a word starts.
pub open spec fn word_start_from(line: Seq<char>, from: int) -> Option<int>
    decreases line.len() - from,
{
    if from < 0 || from >= line.len() {
        None
    } else if starts_word(line, from) {
        Some(from)
    } else {
        word_start_from(line, from + 1)
    }
}

/// The greatest index below `below` at which a word starts.
pub open spec fn word_start_before(line: Seq<char>, below: int) -> Option<int>
    decreases below,
{
    if below <= 0 || below > line.len() {
        None
    } else if starts_word(line, below - 1) {
        Some(below - 1)
    } else {
        word_start_before(line, below - 1)
    }
}

/// A paragraph starts at row `r`: the line is not empty and the one above it
/// is.
pub open spec fn starts_paragraph(ls: Seq<Seq<char>>, r: int) -> bool {
    0 < r < ls.len() && ls[r].len() > 0 && ls[r - 1].len() == 0
}

/// The least row from `from` on at which a paragraph starts, or the last row.
pub open spec fn paragraph_from(ls: Seq<Seq<char>>, from: int) -> int
    decreases ls.len() - from,
{
    if from < 0 || from >= ls.len() {
        ls.len() - 1
    } else if starts_paragraph(ls, from) {
        from
    } else {
        paragraph_from(ls, from + 1)
    }
}

/// The greatest row below `below` at which a paragraph starts, or the first
/// row.
pub open spec fn paragraph_before(ls: Seq<Seq<char>>, below: int) -> int
    decreases below,
{
    if below <= 0 || below > ls.len() {
        0
    } else if starts_paragraph(ls, below - 1) {
        below - 1
    } else {
        paragraph_before(ls, below - 1)
    }
}

/// `word_start_from` gives the least word start from `from` on, and `None`
/// only if there is none.
pub proof fn lemma_word_start_from(line: Seq<char>, from: int)
    requires
        0 <= from,
    ensures
        match word_start_from(line, from) {
            Some(i) => from <= i < line.len() && starts_word(line, i) && forall|j: int|
                from <= j < i ==> !starts_word(line, j),
            None => forall|j: int| from <= j ==> !starts_word(line, j),
        },
    decreases line.len() - from,
{
    if from < line.len() && !starts_word(line, from) {
        lemma_word_start_from(line, from + 1);
    }
}

/// `word_start_before` gives the greatest word start below `below`, and
/// `None` only if there is none.
pub proof fn lemma_word_start_before(line: Seq<char>, below: int)
    requires
        below <= line.len(),
    ensures
        match word_start_before(line, below) {
            Some(i) => 0 <= i < below && starts_word(line, i) && forall|j: int|
                i < j < below ==> !starts_word(line, j),
            None => forall|j: int| j < below ==> !starts_word(line, j),
        },
    decreases below,
{
    if below > 0 && !starts_word(line, below - 1) {
        lemma_word_start_before(line, below - 1);
    }
}

/// `paragraph_from` gives a row of the text, from `from` on if there is one.
pub proof fn lemma_paragraph_from(ls: Seq<Seq<char>>, from: int)
    requires
        ls.len() >= 1,
        0 <= from,
    ensures
        0 <= paragraph_from(ls, from) < ls.len(),
        from < ls.len() ==> from <= paragraph_from(ls, from),
        forall|j: int| from <= j < paragraph_from(ls, from) ==> !starts_paragraph(ls, j),
    decreases ls.len() - from,
{
    if from < ls.len() && !starts_paragraph(ls, from) {
        lemma_paragraph_from(ls, from + 1);
    }
}

/// `paragraph_before` gives a row of the text below `below`, or the first.
pub proof fn lemma_paragraph_before(ls: Seq<Seq<char>>, below: int)
    requires
        ls.len() >= 1,
        below <= ls.len(),
    ensures
        0 <= paragraph_before(ls, below) < ls.len(),
        below > 0 ==> paragraph_before(ls, below) < below,
        forall|j: int| paragraph_before(ls, below) < j < below ==> !starts_paragraph(ls, j),
    decreases below,
{
    if below > 0 && !starts_paragraph(ls, below - 1) {
        lemma_paragraph_before(ls, below - 1);
    }
}

/// The ways to move the cursor.
#[derive(Clone, Copy, Debug, PartialEq, Eq, Structural)]
pub enum CursorMove {
    /// One character on; from the end of a line to the head of the next.
    Forward,
    /// One character back; from the head of a line to the end of the one
    /// before.
    Back,
    /// One line up, at the same column or the end of the line.
    Up,
    /// One line down, at the same column or the end of the line.
    Down,
    /// To the head of the line.
    Head,
    /// To the end of the line.
    End,
    /// To the first line.
    Top,
    /// To the last line.
    Bottom,
    /// To the next start of a word; failing that, to the head of the next
    /// line; failing that, to the end of the line.
    WordForward,
    /// To the start of the word before the cursor; failing that, to the end
    /// of the line before; failing that, to the head of the line.
    WordBack,
    /// To the next line that begins a paragraph, or to the last line.
    ParagraphForward,
    /// To the line that begins the paragraph before the cursor, or to the
    /// first line.
    ParagraphBack,
}

/// The column `col` on the line, or the end of the line if it is shorter.
pub open spec fn fit_col(line: Seq<char>, col: int) -> int {
    if col <= line.len() {
        col
    } else {
        line.len() as int
    }
}

/// The position `col` on row `row`, or the end of that row.
pub open spec fn fitted(ls: Seq<Seq<char>>, row: int, col: int) -> Pos {
    Pos { row, col: fit_col(ls[row], col) }
}

/// Where a move takes the cursor from `p`, or `None` where it cannot be made
/// (there is no line or character in that direction).
pub open spec fn next_cursor(ls: Seq<Seq<char>>, p: Pos, m: CursorMove) -> Option<Pos> {
    let len = ls[p.row].len() as int;
    match m {
        CursorMove::Forward => if p.col < len {
            Some(Pos { row: p.row, col: p.col + 1 })
        } else if p.row + 1 < ls.len() {
            Some(Pos { row: p.row + 1, col: 0 })
        } else {
            None
        },
        CursorMove::Back => if p.col > 0 {
            Some(Pos { row: p.row, col: p.col - 1 })
        } else if p.row > 0 {
            Some(Pos { row: p.row - 1, col: ls[p.row - 1].len() as int })
        } else {
            None
        },
        CursorMove::Up => if p.row > 0 {
            Some(fitted(ls, p.row - 1, p.col))
        } else {
            None
        },
        CursorMove::Down => if p.row + 1 < ls.len() {
            Some(fitted(ls, p.row + 1, p.col))
        } else {
            None
        },
        CursorMove::Head => Some(Pos { row: p.row, col: 0 }),
        CursorMove::End => Some(Pos { row: p.row, col: len }),
        CursorMove::Top => Some(fitted(ls, 0, p.col)),
        CursorMove::Bottom => Some(fitted(ls, ls.len() - 1, p.col)),
        CursorMove::WordForward => match word_start_from(ls[p.row], p.col + 1) {
            Some(col) => Some(Pos { row: p.row, col }),
            None => if p.row + 1 < ls.len() {
                Some(Pos { row: p.row + 1, col: 0 })
            } else {
                Some(Pos { row: p.row, col: len })
            },
        },
        CursorMove::WordBack => match word_start_before(ls[p.row], p.col) {
            Some(col) => Some(Pos { row: p.row, col }),
            None => if p.row > 0 {
                Some(Pos { row: p.row - 1, col: ls[p.row - 1].len() as int })
            } else {
                Some(Pos { row: p.row, col: 0 })
            },
        },
        CursorMove::ParagraphForward => Some(fitted(ls, paragraph_from(ls, p.row + 1), p.col)),
        CursorMove::ParagraphBack => if p.row > 0 {
            Some(fitted(ls, paragraph_before(ls, p.row), p.col))
        } else {
            None
        },
    }
}

/// A move from a position of the text leads to a position of the text.
pub proof fn lemma_next_cursor(ls: Seq<Seq<char>>, p: Pos, m: CursorMove)
    requires
        in_text(ls, p),
    ensures
        next_cursor(ls, p, m) matches Some(q) ==> in_text(ls, q),
{
    lemma_word_start_from(ls[p.row], p.col + 1);
    lemma_word_start_before(ls[p.row], p.col);
    lemma_paragraph_from(ls, p.row + 1);
    lemma_paragraph_before(ls, p.row);
}

/// How far to scroll the window.
#[derive(Clone, Copy, Debug, PartialEq, Eq, Structural)]
pub enum Scrolling {
    PageDown,
    PageUp,
    HalfPageDown,
    HalfPageUp,
}

/// The part of the text that is on screen: `height` rows from row `top` on.
/// Scrolling moves it; the cursor follows.
#[derive(Clone, Copy, Debug, PartialEq, Eq, Structural)]
pub struct Viewport {
    pub top: usize,
    pub height: usize,
}

/// The first row on screen after scrolling: a page is the height of the
/// window, and the row stays within what a `usize` holds.
pub open spec fn scrolled_top(v: Viewport, s: Scrolling) -> int {
    match s {
        Scrolling::PageDown => if v.top + v.height > usize::MAX {
            usize::MAX as int
        } else {
            v.top + v.height
        },
        Scrolling::PageUp => if v.top - v.height < 0 {
            0
        } else {
            v.top - v.height
        },
        Scrolling::HalfPageDown => if v.top + v.height / 2 > usize::MAX {
            usize::MAX as int
        } else {
            v.top + v.height / 2
        },
        Scrolling::HalfPageUp => if v.top - v.height / 2 < 0 {
            0
        } else {
            v.top - v.height / 2
        },
    }
}

/// The last row of the window; a window without height counts as one row.
pub open spec fn bottom_row(v: Viewport) -> int {
    if v.height == 0 {
        v.top as int
    } else if v.top + v.height - 1 > usize::MAX {
        usize::MAX as int
    } else {
        v.top + v.height - 1
    }
}

/// The cursor brought into the window: its row moves to the nearest row of
/// the window that the text has, its column stays or moves to the end of the
/// line.
pub open spec fn into_viewport(ls: Seq<Seq<char>>, p: Pos, v: Viewport) -> Pos {
    let row = if p.row < v.top {
        v.top as int
    } else if p.row > bottom_row(v) {
        bottom_row(v)
    } else {
        p.row
    };
    let row = if row > ls.len() - 1 {
        ls.len() - 1
    } else {
        row
    };
    fitted(ls, row, p.col)
}

/// The first row of a window of `height` rows that shows row `row`, moved as
/// little as possible from `top`; a window without height starts at the row.
pub open spec fn revealing_top(top: int, row: int, height: int) -> int {
    if row < top || height == 0 {
        row
    } else if top + height <= row {
        row + 1 - height
    } else {
        top
    }
}

/// The class of a character.
pub fn char_kind_exec(c: char) -> (k: CharKind)
    ensures
        k == char_kind(c),
{
    if c.is_whitespace() {
        CharKind::Space
    } else if ('!' <= c && c <= '/') || (':' <= c && c <= '@') || ('[' <= c && c <= '`') || ('{'
        <= c && c <= '~') {
        CharKind::Punct
    } else {
        CharKind::Other
    }
}

/// Whether a word starts at index `i` of the line.
fn starts_word_exec(line: &Vec<char>, i: usize) -> (b: bool)
    requires
        i < line.len(),
    ensures
        b == starts_word(line@, i as int),
{
    let kind = char_kind_exec(line[i]);
    kind != CharKind::Space && (i == 0 || char_kind_exec(line[i - 1]) != kind)
}

/// The next start of a word behind column `col`.
pub fn find_word_start_forward(line: &Vec<char>, col: usize) -> (out: Option<usize>)
    requires
        col <= line.len(),
    ensures
        out matches Some(i) ==> i < line.len(),
        match out {
            Some(i) => word_start_from(line@, col + 1) == Some(i as int),
            None => word_start_from(line@, col + 1) is None,
        },
{
    if col >= line.len() {
        return None;
    }
    let mut i: usize = col + 1;
    while i < line.len()
        invariant
            col < i <= line.len(),
            word_start_from(line@, col + 1) == word_start_from(line@, i as int),
        decreases line.len() - i,
    {
        if starts_word_exec(line, i) {
            return Some(i);
        }
        i += 1;
    }
    None
}

/// The start of the word before column `col`.
pub fn find_word_start_backward(line: &Vec<char>, col: usize) -> (out: Option<usize>)
    requires
        col <= line.len(),
    ensures
        out matches Some(i) ==> i < col,
        match out {
            Some(i) => word_start_before(line@, col as int) == Some(i as int),
            None => word_start_before(line@, col as int) is None,
        },
{
    let mut k: usize = col;
    while k > 0
        invariant
            k <= col <= line.len(),
            word_start_before(line@, col as int) == word_start_before(line@, k as int),
        decreases k,
    {
        if starts_word_exec(line, k - 1) {
            return Some(k - 1);
        }
        k -= 1;
    }
    None
}

/// Whether a paragraph starts at row `r`.
fn starts_paragraph_exec(lines: &Vec<Vec<char>>, r: usize) -> (b: bool)
    requires
        r < lines.len(),
    ensures
        b == starts_paragraph(lines_of(lines@), r as int),
{
    r > 0 && lines[r].len() > 0 && lines[r - 1].len() == 0
}

/// The next row from `from` on that begins a paragraph, or the last row.
fn find_paragraph_from(lines: &Vec<Vec<char>>, from: usize) -> (out: usize)
    requires
        lines.len() >= 1,
    ensures
        out == paragraph_from(lines_of(lines@), from as int),
        out < lines.len(),
{
    let n = lines.len();
    assert(lines_of(lines@).len() == n);
    let mut r: usize = from;
    while r < n
        invariant
            n == lines.len(),
            n == lines_of(lines@).len(),
            from <= r,
            paragraph_from(lines_of(lines@), from as int) == paragraph_from(
                lines_of(lines@),
                r as int,
            ),
        decreases n - r,
    {
        if starts_paragraph_exec(lines, r) {
            return r;
        }
        r += 1;
    }
    n - 1
}

/// The last row below `below` that begins a paragraph, or the first row.
fn find_paragraph_before(lines: &Vec<Vec<char>>, below: usize) -> (out: usize)
    requires
        lines.len() >= 1,
        below <= lines.len(),
    ensures
        out == paragraph_before(lines_of(lines@), below as int),
        out < lines.len(),
{
    assert(lines_of(lines@).len() == lines.len());
    let mut k: usize = below;
    while k > 0
        invariant
            k <= below <= lines.len(),
            lines_of(lines@).len() == lines.len(),
            paragraph_before(lines_of(lines@), below as int) == paragraph_before(
                lines_of(lines@),
                k as int,
            ),
        decreases k,
    {
        if starts_paragraph_exec(lines, k - 1) {
            return k - 1;
        }
        k -= 1;
    }
    0
}

/// The position `col` on row `row`, or the end of that row.
fn fitted_exec(lines: &Vec<Vec<char>>, row: usize, col: usize) -> (out: Position)
    requires
        row < lines.len(),
    ensures
        out@ == fitted(lines_of(lines@), row as int, col as int),
        in_text(lines_of(lines@), out@),
{
    assert(lines_of(lines@).len() == lines.len());
    let len = lines[row].len();
    Position {
        row,
        col: if col <= len {
            col
        } else {
            len
        },
    }
}

/// Where a move takes the cursor, as `next_cursor` says.
pub fn next_cursor_exec(lines: &Vec<Vec<char>>, p: Position, m: CursorMove) -> (out: Option<
    Position,
>)
    requires
        in_text(lines_of(lines@), p@),
    ensures
        match out {
            Some(q) => next_cursor(lines_of(lines@), p@, m) == Some(q@) && in_text(
                lines_of(lines@),
                q@,
            ),
            None => next_cursor(lines_of(lines@), p@, m) is None,
        },
{
    let n = lines.len();
    assert(lines_of(lines@).len() == n);
    proof {
        lemma_next_cursor(lines_of(lines@), p@, m);
    }
    let len = lines[p.row].len();
    match m {
        CursorMove::Forward => {
            if p.col < len {
                Some(Position { row: p.row, col: p.col + 1 })
            } else if p.row + 1 < n {
                Some(Position { row: p.row + 1, col: 0 })
            } else {
                None
            }
        },
        CursorMove::Back => {
            if p.col > 0 {
                Some(Position { row: p.row, col: p.col - 1 })
            } else if p.row > 0 {
                Some(Position { row: p.row - 1, col: lines[p.row - 1].len() })
            } else {
                None
            }
        },
        CursorMove::Up => {
            if p.row > 0 {
                Some(fitted_exec(lines, p.row - 1, p.col))
            } else {
                None
            }
        },
        CursorMove::Down => {
            if p.row + 1 < n {
                Some(fitted_exec(lines, p.row + 1, p.col))
            } else {
                None
            }
        },
        CursorMove::Head => Some(Position { row: p.row, col: 0 }),
        CursorMove::End => Some(Position { row: p.row, col: len }),
        CursorMove::Top => Some(fitted_exec(lines, 0, p.col)),
        CursorMove::Bottom => Some(fitted_exec(lines, n - 1, p.col)),
        CursorMove::WordForward => {
            match find_word_start_forward(&lines[p.row], p.col) {
                Some(col) => Some(Position { row: p.row, col }),
                None => {
                    if p.row + 1 < n {
                        Some(Position { row: p.row + 1, col: 0 })
                    } else {
                        Some(Position { row: p.row, col: len })
                    }
                },
            }
        },
        CursorMove::WordBack => {
            match find_word_start_backward(&lines[p.row], p.col) {
                Some(col) => Some(Position { row: p.row, col }),
                None => {
                    if p.row > 0 {
                        Some(Position { row: p.row - 1, col: lines[p.row - 1].len() })
                    } else {
                        Some(Position { row: p.row, col: 0 })
                    }
                },
            }
        },
        CursorMove::ParagraphForward => {
            let row = find_paragraph_from(lines, p.row + 1);
            Some(fitted_exec(lines, row, p.col))
        },
        CursorMove::ParagraphBack => {
            if p.row > 0 {
                let row = find_paragraph_before(lines, p.row);
                Some(fitted_exec(lines, row, p.col))
            } else {
                None
            }
        },
    }
}

/// The window after scrolling.
pub fn scroll_viewport(v: Viewport, s: Scrolling) -> (out: Viewport)
    ensures
        out.top == scrolled_top(v, s),
        out.height == v.height,
{
    let top = match s {
        Scrolling::PageDown => v.top.saturating_add(v.height),
        Scrolling::PageUp => v.top.saturating_sub(v.height),
        Scrolling::HalfPageDown => v.top.saturating_add(v.height / 2),
        Scrolling::HalfPageUp => v.top.saturating_sub(v.height / 2),
    };
    Viewport { top, height: v.height }
}

/// The cursor brought into the window, as `into_viewport` says.
pub fn into_viewport_exec(lines: &Vec<Vec<char>>, p: Position, v: Viewport) -> (out: Position)
    requires
        lines.len() >= 1,
    ensures
        out@ == into_viewport(lines_of(lines@), p@, v),
        in_text(lines_of(lines@), out@),
{
    assert(lines_of(lines@).len() == lines.len());
    let bottom = if v.height == 0 {
        v.top
    } else {
        v.top.saturating_add(v.height - 1)
    };
    let row = if p.row < v.top {
        v.top
    } else if p.row > bottom {
        bottom
    } else {
        p.row
    };
    let row = if row > lines.len() - 1 {
        lines.len() - 1
    } else {
        row
    };
    fitted_exec(lines, row, p.col)
}

/// The window of `height` rows that shows row `row`, moved as little as
/// possible.
pub fn reveal_row(v: Viewport, row: usize, height: usize) -> (out: Viewport)
    ensures
        out.height == height,
        out.top == revealing_top(v.top as int, row as int, height as int),
{
    let top = if row < v.top || height == 0 {
        row
    } else if height <= row - v.top {
        row - (height - 1)
    } else {
        v.top
    };
    Viewport { top, height }
}

} // verus!
