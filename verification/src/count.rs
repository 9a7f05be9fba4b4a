//! How often a character occurs in a text, and that loading stored content
//! into lines neither adds nor loses a character other than line endings.

use vstd::prelude::*;
use crate::region::{in_text, insert_at, Pos};
use crate::text::{
    closed_pieces,
    content_lines,
    join_lines,
    lemma_join_split_raw,
    lemma_split_raw_lines,
    split_raw,
    strip_cr,
};

verus! {

/// The number of places at which `c` stands in `s`.
pub open spec fn count_in(s: Seq<char>, c: char) -> nat
    decreases s.len(),
{
    if s.len() == 0 {
        0
    } else {
        count_in(s.drop_last(), c) + if s.last() == c {
            1nat
        } else {
            0nat
        }
    }
}

/// The number of places at which `c` stands in the lines of `ls`.
pub open spec fn count_all(ls: Seq<Seq<char>>, c: char) -> nat
    decreases ls.len(),
{
    if ls.len() == 0 {
        0
    } else {
        count_all(ls.drop_last(), c) + count_in(ls.last(), c)
    }
}

/// Two texts one behind the other hold `c` as often as both together.
pub proof fn lemma_count_in_add(a: Seq<char>, b: Seq<char>, c: char)
    ensures
        count_in(a + b, c) == count_in(a, c) + count_in(b, c),
    decreases b.len(),
{
    if b.len() == 0 {
        assert(a + b == a);
    } else {
        lemma_count_in_add(a, b.drop_last(), c);
        assert((a + b).drop_last() == a + b.drop_last());
    }
}

/// Two sequences of lines one behind the other hold `c` as often as both
/// together.
pub proof fn lemma_count_all_add(a: Seq<Seq<char>>, b: Seq<Seq<char>>, c: char)
    ensures
        count_all(a + b, c) == count_all(a, c) + count_all(b, c),
    decreases b.len(),
{
    if b.len() == 0 {
        assert(a + b == a);
    } else {
        lemma_count_all_add(a, b.drop_last(), c);
        assert((a + b).drop_last() == a + b.drop_last());
    }
}

/// A text of one character holds `c` once if that character is `c`, and
/// else not at all.
pub proof fn lemma_count_in_one(x: char, c: char)
    ensures
        count_in(seq![x], c) == if x == c {
            1nat
        } else {
            0nat
        },
{
    let s = seq![x];
    assert(s.len() == 1);
    assert(s.last() == x);
    assert(s.drop_last() =~= Seq::<char>::empty());
    assert(count_in(Seq::<char>::empty(), c) == 0);
}

/// One line holds `c` as often as the sequence of that line alone.
pub proof fn lemma_count_all_one(l: Seq<char>, c: char)
    ensures
        count_all(seq![l], c) == count_in(l, c),
{
    let s = seq![l];
    assert(s.len() == 1);
    assert(s.last() == l);
    assert(s.drop_last() =~= Seq::<Seq<char>>::empty());
    assert(count_all(Seq::<Seq<char>>::empty(), c) == 0);
}

/// Joined lines hold a character other than the line feed as often as the
/// lines do.
pub proof fn lemma_count_join(ls: Seq<Seq<char>>, c: char)
    requires
        c != '\n',
    ensures
        count_in(join_lines(ls), c) == count_all(ls, c),
    decreases ls.len(),
{
    if ls.len() == 0 {
    } else if ls.len() == 1 {
        lemma_count_all_one(ls[0], c);
        assert(ls == seq![ls[0]]);
    } else {
        lemma_count_join(ls.drop_last(), c);
        let head = join_lines(ls.drop_last());
        lemma_count_in_add(head + seq!['\n'], ls.last(), c);
        lemma_count_in_add(head, seq!['\n'], c);
        lemma_count_in_one('\n', c);
    }
}

/// A line without the carriage return at its end holds every other
/// character as often as before.
pub proof fn lemma_count_strip_cr(l: Seq<char>, c: char)
    requires
        c != '\r',
    ensures
        count_in(strip_cr(l), c) == count_in(l, c),
{
}

/// Lines without the carriage returns at their ends hold every other
/// character as often as before.
pub proof fn lemma_count_stripped(ls: Seq<Seq<char>>, c: char)
    requires
        c != '\r',
    ensures
        count_all(ls.map_values(|p: Seq<char>| strip_cr(p)), c) == count_all(ls, c),
    decreases ls.len(),
{
    let stripped = ls.map_values(|p: Seq<char>| strip_cr(p));
    if ls.len() > 0 {
        lemma_count_stripped(ls.drop_last(), c);
        assert(stripped.drop_last() == ls.drop_last().map_values(|p: Seq<char>| strip_cr(p)));
        lemma_count_strip_cr(ls.last(), c);
    }
}

/// The lines of stored content hold every character that is no line feed
/// and no carriage return as often as the content does.
pub proof fn lemma_count_content_lines(s: Seq<char>, c: char)
    requires
        c != '\n',
        c != '\r',
    ensures
        count_all(content_lines(s), c) == count_in(s, c),
{
    let raw = split_raw(s);
    lemma_split_raw_lines(s);
    lemma_join_split_raw(s);
    lemma_count_join(raw, c);
    lemma_count_stripped(raw.drop_last(), c);
    let closed = closed_pieces(s);
    assert(count_all(closed, c) == count_all(raw.drop_last(), c));
    assert(count_all(raw, c) == count_all(raw.drop_last(), c) + count_in(raw.last(), c));
    if raw.last().len() == 0 {
    } else {
        assert(closed.push(raw.last()).drop_last() == closed);
    }
}

/// A text with one character inserted holds that character once more.
pub proof fn lemma_count_insert_char(ls: Seq<Seq<char>>, p: Pos, c: char)
    requires
        in_text(ls, p),
    ensures
        count_all(insert_at(ls, p, seq![seq![c]]), c) == count_all(ls, c) + 1,
{
    let line = ls[p.row];
    let head = line.take(p.col);
    let tail = line.skip(p.col);
    let grown = head + seq![c] + tail;
    let after = insert_at(ls, p, seq![seq![c]]);
    assert(after == ls.take(p.row) + seq![grown] + ls.skip(p.row + 1));
    assert(ls == ls.take(p.row) + seq![line] + ls.skip(p.row + 1));
    lemma_count_all_add(ls.take(p.row) + seq![grown], ls.skip(p.row + 1), c);
    lemma_count_all_add(ls.take(p.row), seq![grown], c);
    lemma_count_all_add(ls.take(p.row) + seq![line], ls.skip(p.row + 1), c);
    lemma_count_all_add(ls.take(p.row), seq![line], c);
    lemma_count_all_one(grown, c);
    lemma_count_all_one(line, c);
    lemma_count_in_add(head + seq![c], tail, c);
    lemma_count_in_add(head, seq![c], c);
    lemma_count_in_add(head, tail, c);
    assert(line == head + tail);
    lemma_count_in_one(c, c);
}

/// A text that holds `c` somewhere holds it at least once.
pub proof fn lemma_count_in_member(s: Seq<char>, i: int, c: char)
    requires
        0 <= i < s.len(),
        s[i] == c,
    ensures
        count_in(s, c) >= 1,
    decreases s.len(),
{
    if i < s.len() - 1 {
        lemma_count_in_member(s.drop_last(), i, c);
    }
}

} // verus!
