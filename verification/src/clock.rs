//! The time of day, as the short text that stands before a captured note.

use vstd::prelude::*;
use crate::text::is_line;

verus! {

/// A decimal digit.
pub open spec fn is_digit(c: char) -> bool {
    '0' <= c <= '9'
}

/// A time of day in the form `HH:MM`: two digits from 00 to 23, a colon, two
/// digits from 00 to 59.
pub open spec fn is_short_time(s: Seq<char>) -> bool {
    &&& s.len() == 5
    &&& is_digit(s[0])
    &&& is_digit(s[1])
    &&& s[2] == ':'
    &&& is_digit(s[3])
    &&& is_digit(s[4])
    &&& (s[0] < '2' || (s[0] == '2' && s[1] <= '3'))
    &&& s[3] <= '5'
}

/// A short time holds no line feed.
pub proof fn lemma_short_time_is_line(s: Seq<char>)
    requires
        is_short_time(s),
    ensures
        is_line(s),
{
    assert forall|i: int| 0 <= i < s.len() implies s[i] != '\n' by {
        if i == 0 {
        } else if i == 1 {
        } else if i == 2 {
        } else if i == 3 {
        } else {
            assert(i == 4);
        }
    }
}

/// Whether the text is a short time.
pub fn is_short_time_exec(s: &Vec<char>) -> (b: bool)
    ensures
        b == is_short_time(s@),
{
    s.len() == 5 && '0' <= s[0] && s[0] <= '9' && '0' <= s[1] && s[1] <= '9' && s[2] == ':' && '0'
        <= s[3] && s[3] <= '9' && '0' <= s[4] && s[4] <= '9' && (s[0] < '2' || (s[0] == '2'
        && s[1] <= '3')) && s[3] <= '5'
}

/// The local time of the moment of the call, from `chrono::Local::now`,
/// formatted by chrono with `%H:%M`: the hour from 00 to 23 and the minute
/// from 00 to 59, each in two digits, with a colon between them. Which time
/// it is depends on the clock and the time zone of the machine.
#[verifier::external_body]
pub(crate) fn local_short_time() -> (text: String)
    ensures
        is_short_time(text@),
{
    chrono::Local::now().format("%H:%M").to_string()
}

} // verus!
