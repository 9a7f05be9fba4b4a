//! Text as sequences of characters: conversion from and to strings, and the
//! splitting and joining of lines.
//!
//! A line is a `Seq<char>` without a line feed; a text of several lines is a
//! `Seq<Seq<char>>`.  Executable code holds a line as a `Vec<char>`, so that a
//! column is an index.

use vstd::prelude::*;

verus! {

/// `String::push` appends one character to the end of the string.
pub assume_specification[ String::push ](s: &mut String, ch: char)
    ensures
        final(s)@ == old(s)@.push(ch),
;

/// What a vector of lines holds, line by line.
pub open spec fn lines_of(v: Seq<Vec<char>>) -> Seq<Seq<char>> {
    v.map_values(|l: Vec<char>| l@)
}

/// No line feed occurs in the line.
pub open spec fn is_line(l: Seq<char>) -> bool {
    forall|i: int| 0 <= i < l.len() ==> l[i] != '\n'
}

/// Every element is a line.
pub open spec fn all_lines(ls: Seq<Seq<char>>) -> bool {
    forall|i: int| 0 <= i < ls.len() ==> is_line(#[trigger] ls[i])
}

/// The line without one carriage return at its end, if it has one.
pub open spec fn strip_cr(l: Seq<char>) -> Seq<char> {
    if l.len() > 0 && l.last() == '\r' {
        l.drop_last()
    } else {
        l
    }
}

/// The pieces between the line feeds of `s`: one more than there are line
/// feeds, so at least one.
pub open spec fn split_raw(s: Seq<char>) -> Seq<Seq<char>>
    decreases s.len(),
{
    if s.len() == 0 {
        seq![Seq::<char>::empty()]
    } else {
        let before = split_raw(s.drop_last());
        if s.last() == '\n' {
            before.push(Seq::<char>::empty())
        } else {
            before.update(before.len() - 1, before.last().push(s.last()))
        }
    }
}

/// The pieces of `s` that a line feed ends, each without the carriage return
/// that may precede the line feed.
pub open spec fn closed_pieces(s: Seq<char>) -> Seq<Seq<char>> {
    split_raw(s).drop_last().map_values(|p: Seq<char>| strip_cr(p))
}

/// The pieces of pasted text: `s` split at every line feed, each piece without
/// a carriage return at its end.
pub open spec fn split_text(s: Seq<char>) -> Seq<Seq<char>> {
    closed_pieces(s).push(strip_cr(split_raw(s).last()))
}

/// The lines of stored content: line endings are `\n` and `\r\n`, the final
/// one is optional, and the empty text has no line.
pub open spec fn content_lines(s: Seq<char>) -> Seq<Seq<char>> {
    let last = split_raw(s).last();
    if last.len() == 0 {
        closed_pieces(s)
    } else {
        closed_pieces(s).push(last)
    }
}

/// The lines with a line feed between each two of them.
pub open spec fn join_lines(ls: Seq<Seq<char>>) -> Seq<char>
    decreases ls.len(),
{
    if ls.len() == 0 {
        Seq::<char>::empty()
    } else if ls.len() == 1 {
        ls[0]
    } else {
        join_lines(ls.drop_last()) + seq!['\n'] + ls.last()
    }
}

/// `split_raw` gives at least one piece, and each piece is a line.
pub proof fn lemma_split_raw_lines(s: Seq<char>)
    ensures
        split_raw(s).len() >= 1,
        all_lines(split_raw(s)),
    decreases s.len(),
{
    if s.len() > 0 {
        lemma_split_raw_lines(s.drop_last());
    }
}

/// The pieces of pasted text are lines, and there is at least one.
pub proof fn lemma_split_text_lines(s: Seq<char>)
    ensures
        split_text(s).len() >= 1,
        all_lines(split_text(s)),
{
    lemma_split_raw_lines(s);
    let raw = split_raw(s);
    assert forall|i: int| 0 <= i < split_text(s).len() implies is_line(
        #[trigger] split_text(s)[i],
    ) by {
        assert(is_line(raw[i]));
        assert(split_text(s)[i] == strip_cr(raw[i]));
    }
}

/// The lines of stored content are lines.
pub proof fn lemma_content_lines(s: Seq<char>)
    ensures
        all_lines(content_lines(s)),
{
    lemma_split_raw_lines(s);
    let raw = split_raw(s);
    assert forall|i: int| 0 <= i < content_lines(s).len() implies is_line(
        #[trigger] content_lines(s)[i],
    ) by {
        assert(is_line(raw[i]));
        if i < raw.len() - 1 {
            assert(content_lines(s)[i] == strip_cr(raw[i]));
        }
    }
}

/// Splitting a text and joining the pieces gives the text back.
pub proof fn lemma_join_split_raw(s: Seq<char>)
    ensures
        join_lines(split_raw(s)) == s,
    decreases s.len(),
{
    if s.len() > 0 {
        let t = s.drop_last();
        let before = split_raw(t);
        lemma_split_raw_lines(t);
        lemma_join_split_raw(t);
        if s.last() == '\n' {
            let after = before.push(Seq::<char>::empty());
            assert(after.drop_last() == before);
            assert(join_lines(after) == join_lines(before) + seq!['\n'] + Seq::<char>::empty());
            assert(join_lines(after) == s);
        } else {
            let after = before.update(before.len() - 1, before.last().push(s.last()));
            if before.len() == 1 {
                assert(join_lines(after) == before[0].push(s.last()));
            } else {
                assert(after.drop_last() == before.drop_last());
                assert(join_lines(after) == join_lines(before.drop_last()) + seq!['\n']
                    + before.last().push(s.last()));
                assert(join_lines(after) == join_lines(before).push(s.last()));
            }
            assert(join_lines(after) == s);
        }
    }
}

/// Appending characters other than line feeds lengthens the last piece.
proof fn lemma_split_raw_append_line(s: Seq<char>, l: Seq<char>)
    requires
        is_line(l),
    ensures
        split_raw(s + l) == split_raw(s).update(
            split_raw(s).len() - 1,
            split_raw(s).last() + l,
        ),
    decreases l.len(),
{
    lemma_split_raw_lines(s);
    if l.len() == 0 {
        assert(s + l == s);
        assert(split_raw(s).last() + l == split_raw(s).last());
    } else {
        let l0 = l.drop_last();
        lemma_split_raw_append_line(s, l0);
        assert((s + l).drop_last() == s + l0);
        assert((s + l).last() == l.last());
        assert(split_raw(s).last() + l == (split_raw(s).last() + l0).push(l.last()));
    }
}

/// Joining lines and splitting the result gives the lines back.
pub proof fn lemma_split_raw_join(ls: Seq<Seq<char>>)
    requires
        ls.len() >= 1,
        all_lines(ls),
    ensures
        split_raw(join_lines(ls)) == ls,
    decreases ls.len(),
{
    if ls.len() == 1 {
        lemma_split_raw_append_line(Seq::<char>::empty(), ls[0]);
        assert(split_raw(Seq::<char>::empty()) == seq![Seq::<char>::empty()]);
        assert(Seq::<char>::empty() + ls[0] == ls[0]);
        assert(split_raw(ls[0]) == seq![ls[0]]);
        assert(seq![ls[0]] == ls);
    } else {
        let init = ls.drop_last();
        assert(all_lines(init)) by {
            assert forall|i: int| 0 <= i < init.len() implies is_line(#[trigger] init[i]) by {
                assert(init[i] == ls[i]);
            }
        }
        lemma_split_raw_join(init);
        let head = join_lines(init) + seq!['\n'];
        assert(head.drop_last() == join_lines(init));
        assert(split_raw(head) == init.push(Seq::<char>::empty()));
        lemma_split_raw_append_line(head, ls.last());
        assert(Seq::<char>::empty() + ls.last() == ls.last());
        assert(split_raw(head + ls.last()) == ls);
    }
}

/// The characters of a string slice.
pub fn chars_of(s: &str) -> (out: Vec<char>)
    ensures
        out@ == s@,
{
    let mut out: Vec<char> = Vec::new();
    for c in it: s.chars()
        invariant
            out@ == it.seq().take(it.index()),
            it.seq() == s@,
    {
        out.push(c);
    }
    out
}

/// A string of the given characters.
pub fn string_of(v: &Vec<char>) -> (out: String)
    ensures
        out@ == v@,
{
    let mut out = String::new();
    let mut i: usize = 0;
    while i < v.len()
        invariant
            i <= v.len(),
            out@ == v@.take(i as int),
        decreases v.len() - i,
    {
        out.push(v[i]);
        i += 1;
    }
    out
}

/// A copy of the characters of `line` from `from` up to `to`.
pub fn copy_range(line: &Vec<char>, from: usize, to: usize) -> (out: Vec<char>)
    requires
        from <= to <= line.len(),
    ensures
        out@ == line@.subrange(from as int, to as int),
{
    let mut out: Vec<char> = Vec::new();
    let mut i: usize = from;
    while i < to
        invariant
            from <= i <= to <= line.len(),
            out@ == line@.subrange(from as int, i as int),
        decreases to - i,
    {
        out.push(line[i]);
        i += 1;
    }
    out
}

/// Appends the characters of `src` from `from` up to `to` to `dst`.
pub fn append_range(dst: &mut Vec<char>, src: &Vec<char>, from: usize, to: usize)
    requires
        from <= to <= src.len(),
    ensures
        final(dst)@ == old(dst)@ + src@.subrange(from as int, to as int),
{
    let mut i: usize = from;
    while i < to
        invariant
            from <= i <= to <= src.len(),
            dst@ == old(dst)@ + src@.subrange(from as int, i as int),
        decreases to - i,
    {
        dst.push(src[i]);
        i += 1;
    }
}

/// Appends copies of the lines of `src` from `from` up to `to` to `dst`.
pub fn append_lines(dst: &mut Vec<Vec<char>>, src: &Vec<Vec<char>>, from: usize, to: usize)
    requires
        from <= to <= src.len(),
    ensures
        lines_of(final(dst)@) == lines_of(old(dst)@) + lines_of(src@).subrange(
            from as int,
            to as int,
        ),
{
    let mut i: usize = from;
    while i < to
        invariant
            from <= i <= to <= src.len(),
            lines_of(dst@) == lines_of(old(dst)@) + lines_of(src@).subrange(
                from as int,
                i as int,
            ),
        decreases to - i,
    {
        let line = copy_range(&src[i], 0, src[i].len());
        assert(line@ == src@[i as int]@);
        let ghost before = dst@;
        dst.push(line);
        assert(lines_of(dst@) == lines_of(before).push(line@));
        assert(lines_of(src@).subrange(from as int, i + 1) == lines_of(src@).subrange(
            from as int,
            i as int,
        ).push(line@));
        i += 1;
    }
}

/// A copy of the lines.
pub fn copy_lines(src: &Vec<Vec<char>>) -> (out: Vec<Vec<char>>)
    ensures
        lines_of(out@) == lines_of(src@),
{
    let mut out: Vec<Vec<char>> = Vec::new();
    append_lines(&mut out, src, 0, src.len());
    out
}

/// Whether the line ends in a carriage return.
fn ends_in_cr(line: &Vec<char>) -> (b: bool)
    ensures
        b == (line@.len() > 0 && line@.last() == '\r'),
{
    line.len() > 0 && line[line.len() - 1] == '\r'
}

/// Splits the text at its line feeds: the pieces that a line feed ends, each
/// without the carriage return before the line feed, and the rest.
fn split_pieces(text: &Vec<char>) -> (out: (Vec<Vec<char>>, Vec<char>))
    ensures
        lines_of(out.0@) == closed_pieces(text@),
        out.1@ == split_raw(text@).last(),
{
    let mut done: Vec<Vec<char>> = Vec::new();
    let mut cur: Vec<char> = Vec::new();
    let mut i: usize = 0;
    while i < text.len()
        invariant
            i <= text.len(),
            lines_of(done@) == closed_pieces(text@.take(i as int)),
            cur@ == split_raw(text@.take(i as int)).last(),
        decreases text.len() - i,
    {
        let c = text[i];
        proof {
            let s0 = text@.take(i as int);
            let s1 = text@.take(i + 1);
            assert(s1.drop_last() == s0);
            assert(s1.last() == c);
            lemma_split_raw_lines(s0);
            let raw0 = split_raw(s0);
            let raw1 = split_raw(s1);
            if c == '\n' {
                assert(raw1.drop_last() == raw0);
                assert(raw0 == raw0.drop_last().push(raw0.last()));
                assert(closed_pieces(s1) == closed_pieces(s0).push(strip_cr(raw0.last())));
            } else {
                assert(raw1.drop_last() == raw0.drop_last());
            }
        }
        if c == '\n' {
            if ends_in_cr(&cur) {
                cur.pop();
            }
            done.push(cur);
            cur = Vec::new();
        } else {
            cur.push(c);
        }
        i += 1;
    }
    assert(text@.take(text.len() as int) == text@);
    (done, cur)
}

/// The pieces of pasted text, as `split_text` gives them.
pub fn split_text_exec(text: &Vec<char>) -> (out: Vec<Vec<char>>)
    ensures
        lines_of(out@) == split_text(text@),
{
    let (mut done, mut last) = split_pieces(text);
    if ends_in_cr(&last) {
        last.pop();
    }
    done.push(last);
    done
}

/// The lines of stored content, as `content_lines` gives them.
pub fn content_lines_exec(text: &Vec<char>) -> (out: Vec<Vec<char>>)
    ensures
        lines_of(out@) == content_lines(text@),
{
    let (mut done, last) = split_pieces(text);
    if last.len() > 0 {
        done.push(last);
    }
    done
}

/// The lines joined by line feeds.
pub fn join_lines_exec(lines: &Vec<Vec<char>>) -> (out: Vec<char>)
    ensures
        out@ == join_lines(lines_of(lines@)),
{
    let mut out: Vec<char> = Vec::new();
    let mut i: usize = 0;
    while i < lines.len()
        invariant
            i <= lines.len(),
            out@ == join_lines(lines_of(lines@).take(i as int)),
        decreases lines.len() - i,
    {
        proof {
            let ls0 = lines_of(lines@).take(i as int);
            let ls1 = lines_of(lines@).take(i + 1);
            assert(ls1.drop_last() == ls0);
            assert(ls1.last() == lines@[i as int]@);
        }
        if i > 0 {
            out.push('\n');
        }
        append_range(&mut out, &lines[i], 0, lines[i].len());
        assert(lines@[i as int]@.subrange(0, lines@[i as int]@.len() as int) == lines@[i as int]@);
        i += 1;
    }
    assert(lines_of(lines@).take(lines.len() as int) == lines_of(lines@));
    out
}

/// The character of a decimal digit.
pub open spec fn digit_char(d: nat) -> char {
    if d == 0 {
        '0'
    } else if d == 1 {
        '1'
    } else if d == 2 {
        '2'
    } else if d == 3 {
        '3'
    } else if d == 4 {
        '4'
    } else if d == 5 {
        '5'
    } else if d == 6 {
        '6'
    } else if d == 7 {
        '7'
    } else if d == 8 {
        '8'
    } else {
        '9'
    }
}

/// The number in decimal digits, without leading zeros.
pub open spec fn decimal(n: nat) -> Seq<char>
    decreases n,
{
    if n < 10 {
        seq![digit_char(n)]
    } else {
        decimal(n / 10).push(digit_char(n % 10))
    }
}

/// The character of a decimal digit.
fn digit_char_exec(d: u32) -> (c: char)
    requires
        d < 10,
    ensures
        c == digit_char(d as nat),
{
    if d == 0 {
        '0'
    } else if d == 1 {
        '1'
    } else if d == 2 {
        '2'
    } else if d == 3 {
        '3'
    } else if d == 4 {
        '4'
    } else if d == 5 {
        '5'
    } else if d == 6 {
        '6'
    } else if d == 7 {
        '7'
    } else if d == 8 {
        '8'
    } else {
        '9'
    }
}

/// The number in decimal digits.
pub fn decimal_exec(n: u32) -> (out: Vec<char>)
    ensures
        out@ == decimal(n as nat),
    decreases n,
{
    if n < 10 {
        let mut out: Vec<char> = Vec::new();
        out.push(digit_char_exec(n));
        out
    } else {
        let mut out = decimal_exec(n / 10);
        out.push(digit_char_exec(n % 10));
        out
    }
}

} // verus!
