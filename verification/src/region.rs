//! Positions in a text of lines, and the three operations that every edit is
//! made of: reading the text between two positions, deleting it, and
//! inserting lines at a position.

use vstd::prelude::*;
use crate::text::{all_lines, append_lines, append_range, copy_range, is_line, lines_of};

verus! {

/// A place in a text: a row, and a column from 0 up to the length of the line.
pub struct Pos {
    pub row: int,
    pub col: int,
}

/// A place in a text, as executable code holds it.
#[derive(Clone, Copy, Debug, PartialEq, Eq, Structural)]
pub struct Position {
    pub row: usize,
    pub col: usize,
}

impl View for Position {
    type V = Pos;

    open spec fn view(&self) -> Pos {
        Pos { row: self.row as int, col: self.col as int }
    }
}

/// The position lies in the text: on one of its lines, at or before the end
/// of that line.
pub open spec fn in_text(ls: Seq<Seq<char>>, p: Pos) -> bool {
    0 <= p.row < ls.len() && 0 <= p.col <= ls[p.row].len()
}

/// `a` comes before `b` in reading order, or is `b`.
pub open spec fn pos_le(a: Pos, b: Pos) -> bool {
    a.row < b.row || (a.row == b.row && a.col <= b.col)
}

/// The text from `a` up to `b`, as lines: the first is the rest of the line of
/// `a`, the last is the start of the line of `b`.
pub open spec fn text_between(ls: Seq<Seq<char>>, a: Pos, b: Pos) -> Seq<Seq<char>> {
    if a.row == b.row {
        seq![ls[a.row].subrange(a.col, b.col)]
    } else {
        seq![ls[a.row].skip(a.col)] + ls.subrange(a.row + 1, b.row) + seq![ls[b.row].take(b.col)]
    }
}

/// The text without what stands from `a` up to `b`: the start of the line of
/// `a` and the rest of the line of `b` become one line.
pub open spec fn delete_between(ls: Seq<Seq<char>>, a: Pos, b: Pos) -> Seq<Seq<char>> {
    ls.take(a.row) + seq![ls[a.row].take(a.col) + ls[b.row].skip(b.col)] + ls.skip(b.row + 1)
}

/// The text with the lines of `chunk` inserted at `p`: the first of them
/// continues the line of `p`, and what stood behind `p` follows the last.
pub open spec fn insert_at(ls: Seq<Seq<char>>, p: Pos, chunk: Seq<Seq<char>>) -> Seq<Seq<char>> {
    let head = ls[p.row].take(p.col);
    let tail = ls[p.row].skip(p.col);
    if chunk.len() == 1 {
        ls.take(p.row) + seq![head + chunk[0] + tail] + ls.skip(p.row + 1)
    } else {
        ls.take(p.row) + seq![head + chunk[0]] + chunk.subrange(1, chunk.len() - 1) + seq![
            chunk.last() + tail,
        ] + ls.skip(p.row + 1)
    }
}

/// The position behind the lines of `chunk` once they are inserted at `p`.
pub open spec fn insert_end(p: Pos, chunk: Seq<Seq<char>>) -> Pos {
    if chunk.len() == 1 {
        Pos { row: p.row, col: p.col + chunk[0].len() }
    } else {
        Pos { row: p.row + chunk.len() - 1, col: chunk.last().len() as int }
    }
}

/// What is read between two positions is at least one line, and lines if the
/// text is.
pub proof fn lemma_text_between(ls: Seq<Seq<char>>, a: Pos, b: Pos)
    requires
        in_text(ls, a),
        in_text(ls, b),
        pos_le(a, b),
    ensures
        text_between(ls, a, b).len() == b.row - a.row + 1,
        all_lines(ls) ==> all_lines(text_between(ls, a, b)),
{
    let t = text_between(ls, a, b);
    if all_lines(ls) {
        assert forall|i: int| 0 <= i < t.len() implies is_line(#[trigger] t[i]) by {
            assert(is_line(ls[a.row + i]));
        }
    }
}

/// Deleting between two positions leaves a text in which the first of them
/// lies.
pub proof fn lemma_delete_between(ls: Seq<Seq<char>>, a: Pos, b: Pos)
    requires
        in_text(ls, a),
        in_text(ls, b),
        pos_le(a, b),
    ensures
        delete_between(ls, a, b).len() == ls.len() - (b.row - a.row),
        in_text(delete_between(ls, a, b), a),
        all_lines(ls) ==> all_lines(delete_between(ls, a, b)),
{
    let d = delete_between(ls, a, b);
    if all_lines(ls) {
        assert forall|i: int| 0 <= i < d.len() implies is_line(#[trigger] d[i]) by {
            if i < a.row {
                assert(is_line(ls[i]));
            } else if i == a.row {
                assert(is_line(ls[a.row]));
                assert(is_line(ls[b.row]));
            } else {
                assert(is_line(ls[i + (b.row - a.row)]));
            }
        }
    }
}

/// Inserting lines at a position leaves a text in which the end of the
/// insertion lies.
pub proof fn lemma_insert_at(ls: Seq<Seq<char>>, p: Pos, chunk: Seq<Seq<char>>)
    requires
        in_text(ls, p),
        chunk.len() >= 1,
    ensures
        insert_at(ls, p, chunk).len() == ls.len() + chunk.len() - 1,
        in_text(insert_at(ls, p, chunk), p),
        in_text(insert_at(ls, p, chunk), insert_end(p, chunk)),
        pos_le(p, insert_end(p, chunk)),
        all_lines(ls) && all_lines(chunk) ==> all_lines(insert_at(ls, p, chunk)),
{
    let r = insert_at(ls, p, chunk);
    if all_lines(ls) && all_lines(chunk) {
        assert forall|i: int| 0 <= i < r.len() implies is_line(#[trigger] r[i]) by {
            assert(is_line(ls[p.row]));
            if i < p.row {
                assert(is_line(ls[i]));
            } else if i < p.row + chunk.len() {
                assert(is_line(chunk[i - p.row]));
            } else {
                assert(is_line(ls[i - chunk.len() + 1]));
            }
        }
    }
}

/// What was deleted, inserted again where it stood, gives the text back, and
/// the insertion ends where the deleted text ended.
pub proof fn lemma_insert_deleted(ls: Seq<Seq<char>>, a: Pos, b: Pos)
    requires
        in_text(ls, a),
        in_text(ls, b),
        pos_le(a, b),
    ensures
        insert_at(delete_between(ls, a, b), a, text_between(ls, a, b)) == ls,
        insert_end(a, text_between(ls, a, b)) == b,
{
    let d = delete_between(ls, a, b);
    let t = text_between(ls, a, b);
    let r = insert_at(d, a, t);
    lemma_delete_between(ls, a, b);
    lemma_text_between(ls, a, b);
    lemma_insert_at(d, a, t);
    assert(d[a.row] == ls[a.row].take(a.col) + ls[b.row].skip(b.col));
    assert(d[a.row].take(a.col) == ls[a.row].take(a.col));
    assert(d[a.row].skip(a.col) == ls[b.row].skip(b.col));
    assert forall|i: int| 0 <= i < ls.len() implies #[trigger] r[i] == ls[i] by {
        if i == a.row && a.row == b.row {
            assert(r[i] == ls[a.row].take(a.col) + ls[a.row].subrange(a.col, b.col)
                + ls[b.row].skip(b.col));
            assert(r[i] =~= ls[i]);
        } else if i == a.row {
            assert(r[i] =~= ls[i]);
        } else if i == b.row {
            assert(r[i] =~= ls[i]);
        }
    }
    assert(r =~= ls);
}

/// What was inserted, deleted again, gives the text back, and what stands
/// between the two ends of an insertion is what was inserted.
pub proof fn lemma_delete_inserted(ls: Seq<Seq<char>>, p: Pos, chunk: Seq<Seq<char>>)
    requires
        in_text(ls, p),
        chunk.len() >= 1,
    ensures
        delete_between(insert_at(ls, p, chunk), p, insert_end(p, chunk)) == ls,
        text_between(insert_at(ls, p, chunk), p, insert_end(p, chunk)) == chunk,
{
    let r = insert_at(ls, p, chunk);
    let e = insert_end(p, chunk);
    lemma_insert_at(ls, p, chunk);
    let d = delete_between(r, p, e);
    let t = text_between(r, p, e);
    lemma_delete_between(r, p, e);
    lemma_text_between(r, p, e);
    assert(r[p.row].take(p.col) =~= ls[p.row].take(p.col));
    assert(r[e.row].skip(e.col) =~= ls[p.row].skip(p.col));
    assert forall|i: int| 0 <= i < ls.len() implies #[trigger] d[i] == ls[i] by {
        if i == p.row {
            assert(d[i] =~= ls[i]);
        }
    }
    assert(d =~= ls);
    assert forall|i: int| 0 <= i < chunk.len() implies #[trigger] t[i] == chunk[i] by {
        assert(t[i] =~= chunk[i]);
    }
    assert(t =~= chunk);
}

/// The lines between two positions of the text.
pub fn text_between_exec(lines: &Vec<Vec<char>>, a: Position, b: Position) -> (out: Vec<Vec<char>>)
    requires
        in_text(lines_of(lines@), a@),
        in_text(lines_of(lines@), b@),
        pos_le(a@, b@),
    ensures
        lines_of(out@) == text_between(lines_of(lines@), a@, b@),
{
    let mut out: Vec<Vec<char>> = Vec::new();
    if a.row == b.row {
        out.push(copy_range(&lines[a.row], a.col, b.col));
        assert(lines_of(out@) =~= text_between(lines_of(lines@), a@, b@));
    } else {
        let first = copy_range(&lines[a.row], a.col, lines[a.row].len());
        out.push(first);
        assert(lines_of(out@) =~= seq![lines_of(lines@)[a.row as int].skip(a.col as int)]);
        append_lines(&mut out, lines, a.row + 1, b.row);
        let ghost mid = out@;
        let last = copy_range(&lines[b.row], 0, b.col);
        out.push(last);
        assert(lines_of(out@) == lines_of(mid).push(last@));
        assert(lines_of(out@) =~= text_between(lines_of(lines@), a@, b@));
    }
    out
}

/// The text without what stands between two of its positions.
pub fn delete_between_exec(lines: &Vec<Vec<char>>, a: Position, b: Position) -> (out: Vec<
    Vec<char>,
>)
    requires
        in_text(lines_of(lines@), a@),
        in_text(lines_of(lines@), b@),
        pos_le(a@, b@),
    ensures
        lines_of(out@) == delete_between(lines_of(lines@), a@, b@),
{
    let n = lines.len();
    assert(lines_of(lines@).len() == n);
    let mut out: Vec<Vec<char>> = Vec::new();
    append_lines(&mut out, lines, 0, a.row);
    let ghost head = out@;
    let mut joined = copy_range(&lines[a.row], 0, a.col);
    append_range(&mut joined, &lines[b.row], b.col, lines[b.row].len());
    out.push(joined);
    assert(lines_of(out@) == lines_of(head).push(joined@));
    append_lines(&mut out, lines, b.row + 1, n);
    assert(lines_of(out@) =~= delete_between(lines_of(lines@), a@, b@));
    out
}

/// The text with the lines of `chunk` inserted at one of its positions.
pub fn insert_at_exec(lines: &Vec<Vec<char>>, p: Position, chunk: &Vec<Vec<char>>) -> (out: Vec<
    Vec<char>,
>)
    requires
        in_text(lines_of(lines@), p@),
        chunk.len() >= 1,
    ensures
        lines_of(out@) == insert_at(lines_of(lines@), p@, lines_of(chunk@)),
{
    let rows = lines.len();
    assert(lines_of(lines@).len() == rows);
    let line = &lines[p.row];
    let mut out: Vec<Vec<char>> = Vec::new();
    append_lines(&mut out, lines, 0, p.row);
    let ghost head = out@;
    let mut first = copy_range(line, 0, p.col);
    append_range(&mut first, &chunk[0], 0, chunk[0].len());
    assert(chunk@[0]@.subrange(0, chunk@[0]@.len() as int) == chunk@[0]@);
    if chunk.len() == 1 {
        append_range(&mut first, line, p.col, line.len());
        out.push(first);
        assert(lines_of(out@) == lines_of(head).push(first@));
    } else {
        let n = chunk.len();
        out.push(first);
        assert(lines_of(out@) == lines_of(head).push(first@));
        append_lines(&mut out, chunk, 1, n - 1);
        let ghost mid = out@;
        let mut last = copy_range(&chunk[n - 1], 0, chunk[n - 1].len());
        assert(chunk@[n - 1]@.subrange(0, chunk@[n - 1]@.len() as int) == chunk@[n - 1]@);
        append_range(&mut last, line, p.col, line.len());
        out.push(last);
        assert(lines_of(out@) == lines_of(mid).push(last@));
    }
    append_lines(&mut out, lines, p.row + 1, rows);
    assert(lines_of(out@) =~= insert_at(lines_of(lines@), p@, lines_of(chunk@)));
    out
}

} // verus!
