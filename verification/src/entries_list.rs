//! The list of entries: which lines each entry takes in the list, in which
//! style its title stands, and how its tags are set out in lines. What is
//! drawn, and in which colours, is for the caller.

use vstd::prelude::*;
use crate::text::{append_range, chars_of, decimal, decimal_exec, string_of};

verus! {

/// The columns of the list that hold no text.
pub const LIST_INNER_MARGIN: usize = 5;

/// What stands between two tags of one line.
pub const TAGS_SEPARATOR: &'static str = " | ";

/// What stands before the title of an entry of the same day as the one
/// above it.
pub const SAME_DAY_INDENT: &'static str = "    ";

/// What stands between date and priority where both share a line.
pub const DATE_PRIORITY_SEPARATOR: &'static str = " | ";

/// What the priority of an entry begins with.
pub const PRIORITY_LABEL: &'static str = "Priority: ";

/// The title of the list.
pub const LIST_TITLE: &'static str = "Entries";

/// The title of the list while a filter is in force.
pub const FILTERED_LIST_TITLE: &'static str = "Filtered Entries";

/// Whether the date of an entry is shown.
#[derive(Clone, Copy, Debug, PartialEq, Eq, Structural)]
pub enum DatumVisibility {
    Show,
    Hide,
    /// An empty line stands in place of the date.
    EmptyLine,
}

/// A day of the calendar.
#[derive(Clone, Copy, Debug, PartialEq, Eq, Structural)]
pub struct Date {
    pub year: i32,
    pub month: u32,
    pub day: u32,
}

/// What the list shows of an entry.
#[derive(Debug)]
pub struct ListEntry {
    pub id: u32,
    pub title: String,
    pub date: Date,
    pub priority: Option<u32>,
    pub tags: Vec<String>,
}

/// Which item of the list is selected, and from which item on the list is
/// on screen.
#[derive(Clone, Copy, Debug, PartialEq, Eq, Structural)]
pub struct ListState {
    pub offset: usize,
    pub selected: Option<usize>,
}

/// The style of a title.
#[derive(Clone, Copy, Debug, PartialEq, Eq, Structural)]
pub enum TitleStyle {
    /// The entry is one of the selected entries.
    Selected,
    /// The list is the active part of the screen.
    Active,
    Inactive,
}

/// A piece of a line of tags.
#[derive(Clone, Copy, Debug, PartialEq, Eq, Structural)]
pub enum TagPiece {
    Separator,
    /// The tag with this index among the tags of the entry.
    Tag(usize),
}

/// The room that a tag takes: its width on screen and its length in bytes.
#[derive(Clone, Copy, Debug, PartialEq, Eq, Structural)]
pub struct TagSize {
    pub width: usize,
    pub len: usize,
}

/// How one entry is set out.
#[derive(Debug)]
pub struct ItemLayout {
    pub title_lines: Vec<String>,
    pub title_style: TitleStyle,
    pub date_priority_lines: Vec<String>,
    pub tag_lines: Vec<Vec<TagPiece>>,
}

/// How the list is set out.
#[derive(Debug)]
pub struct ListLayout {
    pub items: Vec<ItemLayout>,
    /// The lines that all items take together.
    pub lines_count: usize,
    /// The mean height of an item, where the list needs a scroll bar.
    pub scrollbar: Option<usize>,
}

/// The lines into which `textwrap::wrap` breaks `text` for lines of `width`
/// columns.
pub uninterp spec fn wrapped(text: Seq<char>, width: usize) -> Seq<Seq<char>>;

/// The width of `text` on screen, as `ratatui::text::Span::width` gives it.
pub uninterp spec fn display_width(text: Seq<char>) -> usize;

/// What a vector of strings holds.
pub open spec fn strings_of(v: Seq<String>) -> Seq<Seq<char>> {
    v.map_values(|s: String| s@)
}

/// What a vector of lines of tags holds.
pub open spec fn pieces_of(v: Seq<Vec<TagPiece>>) -> Seq<Seq<TagPiece>> {
    v.map_values(|l: Vec<TagPiece>| l@)
}

/// The sum of two lengths, or the greatest `usize` if that is less.
pub open spec fn capped(a: int, b: int) -> int {
    if a + b > usize::MAX {
        usize::MAX as int
    } else {
        a + b
    }
}

/// The columns that hold text in a list `width` columns wide.
pub open spec fn text_width(width: u16) -> usize {
    if width >= LIST_INNER_MARGIN {
        (width - LIST_INNER_MARGIN) as usize
    } else {
        0
    }
}

/// A number with its sign in decimal digits.
pub open spec fn signed_decimal(n: int) -> Seq<char> {
    if n < 0 {
        seq!['-'] + decimal((-n) as nat)
    } else {
        decimal(n as nat)
    }
}

/// The date as day, month and year with commas between them.
pub open spec fn date_text(d: Date) -> Seq<char> {
    decimal(d.day as nat) + seq![','] + decimal(d.month as nat) + seq![','] + signed_decimal(
        d.year as int,
    )
}

/// The priority behind its label.
pub open spec fn priority_text(p: u32) -> Seq<char> {
    PRIORITY_LABEL@ + decimal(p as nat)
}

/// The lines of date and priority. Where the date is shown and there is a
/// priority, both stand in one line if that line is not longer than
/// `allowed`, and else in two. Without a priority the date stands alone, or
/// an empty line, or nothing. A priority is shown also where the date is
/// not.
pub open spec fn date_priority_lines(
    visibility: DatumVisibility,
    date: Date,
    priority: Option<u32>,
    allowed: usize,
) -> Seq<Seq<char>> {
    match priority {
        Some(p) => if visibility == DatumVisibility::Show {
            let oneliner = date_text(date) + DATE_PRIORITY_SEPARATOR@ + priority_text(p);
            if oneliner.len() > allowed {
                seq![date_text(date), priority_text(p)]
            } else {
                seq![oneliner]
            }
        } else {
            seq![priority_text(p)]
        },
        None => match visibility {
            DatumVisibility::Show => seq![date_text(date)],
            DatumVisibility::Hide => Seq::empty(),
            DatumVisibility::EmptyLine => seq![Seq::<char>::empty()],
        },
    }
}

/// The lines of tags and the width of the last of them, after the first `n`
/// tags are set. Before a tag that is not the first of its line stands a
/// separator, on a new line if the line has no room for it. The tag follows
/// on the same line if it fits, going by its length in bytes, and else
/// stands at the head of a new line.
pub open spec fn tags_set(sizes: Seq<TagSize>, n: int, allowed: usize) -> (Seq<Seq<TagPiece>>, int)
    decreases n,
{
    if n <= 0 {
        (seq![Seq::<TagPiece>::empty()], 0)
    } else {
        let (lines, width) = tags_set(sizes, n - 1, allowed);
        let size = sizes[n - 1];
        let (lines, width) = if lines.last().len() > 0 {
            let (lines, width) = if capped(width, 3) > allowed {
                (lines.push(Seq::<TagPiece>::empty()), 0)
            } else {
                (lines, width)
            };
            (
                lines.update(lines.len() - 1, lines.last().push(TagPiece::Separator)),
                capped(width, 3),
            )
        } else {
            (lines, width)
        };
        if capped(width, size.len as int) < allowed {
            (
                lines.update(lines.len() - 1, lines.last().push(TagPiece::Tag((n - 1) as usize))),
                capped(width, size.width as int),
            )
        } else {
            (lines.push(seq![TagPiece::Tag((n - 1) as usize)]), size.width as int)
        }
    }
}

/// The lines of the tags of an entry; none where it has no tag.
pub open spec fn tag_lines(sizes: Seq<TagSize>, allowed: usize) -> Seq<Seq<TagPiece>> {
    if sizes.len() == 0 {
        Seq::empty()
    } else {
        tags_set(sizes, sizes.len() as int, allowed).0
    }
}

/// The room that each of the tags takes.
pub open spec fn sizes_of(tags: Seq<String>) -> Seq<TagSize> {
    tags.map_values(
        |t: String|
            TagSize { width: display_width(t@), len: vstd::utf8::encode_utf8(t@).len() as usize },
    )
}

/// Whether the entry `i` is of the same day as the one above it.
pub open spec fn follows_same_day(entries: Seq<ListEntry>, i: int) -> bool {
    0 < i < entries.len() && entries[i - 1].date == entries[i].date
}

/// The title of the entry `i` as the list shows it: indented where the
/// entry is of the same day as the one above it.
pub open spec fn shown_title(entries: Seq<ListEntry>, i: int) -> Seq<char> {
    if follows_same_day(entries, i) {
        SAME_DAY_INDENT@ + entries[i].title@
    } else {
        entries[i].title@
    }
}

/// How one entry is set out, as a value of sequences.
pub struct ItemView {
    pub title_lines: Seq<Seq<char>>,
    pub title_style: TitleStyle,
    pub date_priority_lines: Seq<Seq<char>>,
    pub tag_lines: Seq<Seq<TagPiece>>,
}

impl View for ItemLayout {
    type V = ItemView;

    open spec fn view(&self) -> ItemView {
        ItemView {
            title_lines: strings_of(self.title_lines@),
            title_style: self.title_style,
            date_priority_lines: strings_of(self.date_priority_lines@),
            tag_lines: pieces_of(self.tag_lines@),
        }
    }
}

impl ItemView {
    /// The lines that the item takes.
    pub open spec fn height(self) -> int {
        (self.title_lines.len() + self.date_priority_lines.len() + self.tag_lines.len()) as int
    }
}

/// The lines that the first `n` items take together, or the greatest
/// `usize` if that is less.
pub open spec fn lines_of_items(items: Seq<ItemLayout>, n: int) -> int
    decreases n,
{
    if n <= 0 {
        0
    } else {
        capped(lines_of_items(items, n - 1), items[n - 1]@.height())
    }
}

/// The mean height of an item where the items take more lines than a list
/// of `height` rows shows between its borders, and `None` where they do
/// not.
pub open spec fn scrollbar_for(lines_count: int, items_count: int, height: u16) -> Option<usize> {
    let shown = if height >= 2 {
        height - 2
    } else {
        0
    };
    if lines_count > shown && items_count > 0 {
        Some((lines_count / items_count) as usize)
    } else {
        None
    }
}

/// The list of entries, as far as it is no picture: its selection and the
/// two flags.
#[derive(Debug)]
pub struct EntriesList {
    pub state: ListState,
    /// Whether the list is the active part of the screen.
    pub is_active: bool,
    /// Whether several entries can be selected.
    pub multi_select_mode: bool,
}

/// `textwrap::wrap` with the width as its options: the lines into which it
/// breaks the text. The lines are a function of text and width alone.
#[verifier::external_body]
fn wrap_text(text: &str, width: usize) -> (lines: Vec<String>)
    ensures
        strings_of(lines@) == wrapped(text@, width),
{
    textwrap::wrap(text, width).into_iter().map(|line| line.into_owned()).collect()
}

/// `ratatui::text::Span::width` of a span of the text: the columns that
/// the text takes on screen, a function of the text alone.
#[verifier::external_body]
fn span_width(text: &str) -> (width: usize)
    ensures
        width == display_width(text@),
{
    ratatui::text::Span::raw(text).width()
}

/// A number with its sign in decimal digits.
fn signed_decimal_exec(n: i32) -> (out: Vec<char>)
    ensures
        out@ == signed_decimal(n as int),
{
    if n < 0 {
        let mut out: Vec<char> = Vec::new();
        out.push('-');
        let size: u32 = if n == i32::MIN {
            2147483648u32
        } else {
            (-n) as u32
        };
        let digits = decimal_exec(size);
        append_range(&mut out, &digits, 0, digits.len());
        assert(digits@.subrange(0, digits@.len() as int) == digits@);
        out
    } else {
        decimal_exec(n as u32)
    }
}

/// The date as day, month and year with commas between them.
fn date_text_exec(d: Date) -> (out: Vec<char>)
    ensures
        out@ == date_text(d),
{
    let mut out = decimal_exec(d.day);
    out.push(',');
    let month = decimal_exec(d.month);
    append_range(&mut out, &month, 0, month.len());
    assert(month@.subrange(0, month@.len() as int) == month@);
    out.push(',');
    let year = signed_decimal_exec(d.year);
    append_range(&mut out, &year, 0, year.len());
    assert(year@.subrange(0, year@.len() as int) == year@);
    out
}

/// The priority behind its label.
fn priority_text_exec(p: u32) -> (out: Vec<char>)
    ensures
        out@ == priority_text(p),
{
    let mut out = chars_of(PRIORITY_LABEL);
    let digits = decimal_exec(p);
    append_range(&mut out, &digits, 0, digits.len());
    assert(digits@.subrange(0, digits@.len() as int) == digits@);
    out
}

/// The lines of date and priority, as `date_priority_lines` gives them.
pub fn date_priority_lines_exec(
    visibility: DatumVisibility,
    date: Date,
    priority: Option<u32>,
    allowed: usize,
) -> (out: Vec<String>)
    ensures
        strings_of(out@) == date_priority_lines(visibility, date, priority, allowed),
{
    let mut out: Vec<String> = Vec::new();
    match priority {
        Some(p) => {
            if visibility == DatumVisibility::Show {
                let date_only = date_text_exec(date);
                let priority_only = priority_text_exec(p);
                let mut oneliner = date_text_exec(date);
                let separator = chars_of(DATE_PRIORITY_SEPARATOR);
                append_range(&mut oneliner, &separator, 0, separator.len());
                assert(separator@.subrange(0, separator@.len() as int) == separator@);
                append_range(&mut oneliner, &priority_only, 0, priority_only.len());
                assert(priority_only@.subrange(0, priority_only@.len() as int)
                    == priority_only@);
                if oneliner.len() > allowed {
                    out.push(string_of(&date_only));
                    out.push(string_of(&priority_only));
                } else {
                    out.push(string_of(&oneliner));
                }
            } else {
                out.push(string_of(&priority_text_exec(p)));
            }
        },
        None => {
            match visibility {
                DatumVisibility::Show => {
                    out.push(string_of(&date_text_exec(date)));
                },
                DatumVisibility::Hide => {},
                DatumVisibility::EmptyLine => {
                    out.push(String::new());
                },
            }
        },
    }
    assert(strings_of(out@) =~= date_priority_lines(visibility, date, priority, allowed));
    out
}

/// The lines of the tags, as `tag_lines` gives them.
pub fn tag_lines_exec(sizes: &Vec<TagSize>, allowed: usize) -> (out: Vec<Vec<TagPiece>>)
    ensures
        pieces_of(out@) == tag_lines(sizes@, allowed),
{
    let mut lines: Vec<Vec<TagPiece>> = Vec::new();
    if sizes.len() == 0 {
        assert(pieces_of(lines@) =~= Seq::<Seq<TagPiece>>::empty());
        return lines;
    }
    let mut last: Vec<TagPiece> = Vec::new();
    let mut width: usize = 0;
    let mut i: usize = 0;
    while i < sizes.len()
        invariant
            i <= sizes.len(),
            pieces_of(lines@).push(last@) == tags_set(sizes@, i as int, allowed).0,
            width == tags_set(sizes@, i as int, allowed).1,
        decreases sizes.len() - i,
    {
        let size = sizes[i];
        let ghost before = tags_set(sizes@, i as int, allowed);
        assert(before.0.last() == last@);
        assert(before.0.drop_last() == pieces_of(lines@));
        if last.len() > 0 {
            if width.saturating_add(3) > allowed {
                let ghost closed = lines@;
                lines.push(last);
                assert(pieces_of(lines@) == pieces_of(closed).push(last@));
                last = Vec::new();
                width = 0;
            }
            last.push(TagPiece::Separator);
            width = width.saturating_add(3);
        }
        if width.saturating_add(size.len) < allowed {
            last.push(TagPiece::Tag(i));
            width = width.saturating_add(size.width);
        } else {
            let ghost closed = lines@;
            lines.push(last);
            assert(pieces_of(lines@) == pieces_of(closed).push(last@));
            last = Vec::new();
            last.push(TagPiece::Tag(i));
            width = size.width;
        }
        i += 1;
        assert(pieces_of(lines@).push(last@) =~= tags_set(sizes@, i as int, allowed).0);
    }
    let ghost closed = lines@;
    lines.push(last);
    assert(pieces_of(lines@) == pieces_of(closed).push(last@));
    lines
}

/// The room that each of the tags takes.
pub fn tag_sizes(tags: &Vec<String>) -> (out: Vec<TagSize>)
    ensures
        out@ == sizes_of(tags@),
{
    let mut out: Vec<TagSize> = Vec::new();
    let mut i: usize = 0;
    while i < tags.len()
        invariant
            i <= tags.len(),
            out@ == sizes_of(tags@).take(i as int),
        decreases tags.len() - i,
    {
        let tag = tags[i].as_str();
        out.push(TagSize { width: span_width(tag), len: tag.len() });
        assert(out@ =~= sizes_of(tags@).take(i + 1));
        i += 1;
    }
    assert(sizes_of(tags@).take(tags.len() as int) == sizes_of(tags@));
    out
}

/// Whether `id` is among `ids`.
fn contains_id(ids: &Vec<u32>, id: u32) -> (b: bool)
    ensures
        b == ids@.contains(id),
{
    let mut i: usize = 0;
    while i < ids.len()
        invariant
            i <= ids.len(),
            forall|j: int| 0 <= j < i ==> ids@[j] != id,
        decreases ids.len() - i,
    {
        if ids[i] == id {
            return true;
        }
        i += 1;
    }
    false
}

impl EntriesList {
    /// A list that is not active, with nothing selected.
    pub fn new() -> (list: EntriesList)
        ensures
            list.state == (ListState { offset: 0, selected: None }),
            !list.is_active,
            !list.multi_select_mode,
    {
        EntriesList {
            state: ListState { offset: 0, selected: None },
            is_active: false,
            multi_select_mode: false,
        }
    }

    /// Set the active state.
    pub fn set_active(&mut self, active: bool)
        ensures
            *final(self) == (EntriesList { is_active: active, ..*old(self) }),
    {
        self.is_active = active;
    }

    /// The title of the list.
    pub fn title(&self, filtered: bool) -> (out: &'static str)
        ensures
            out@ == if filtered {
                FILTERED_LIST_TITLE@
            } else {
                LIST_TITLE@
            },
    {
        if filtered {
            FILTERED_LIST_TITLE
        } else {
            LIST_TITLE
        }
    }

    /// The style of the title of the entry `id`: that of the selected
    /// entries where several can be selected and this is one of them, and
    /// else that of the list, active or not.
    pub open spec fn title_style(&self, selected_entries: Seq<u32>, id: u32) -> TitleStyle {
        if self.multi_select_mode && selected_entries.contains(id) {
            TitleStyle::Selected
        } else if self.is_active {
            TitleStyle::Active
        } else {
            TitleStyle::Inactive
        }
    }

    /// How the entry `i` is set out in a list `width` columns wide.
    pub open spec fn item(
        &self,
        entries: Seq<ListEntry>,
        selected_entries: Seq<u32>,
        visibility: DatumVisibility,
        width: u16,
        i: int,
    ) -> ItemView {
        let allowed = text_width(width);
        let entry = entries[i];
        ItemView {
            title_lines: wrapped(shown_title(entries, i), allowed),
            title_style: self.title_style(selected_entries, entry.id),
            date_priority_lines: date_priority_lines(
                visibility,
                entry.date,
                entry.priority,
                allowed,
            ),
            tag_lines: tag_lines(sizes_of(entry.tags@), allowed),
        }
    }

    /// Sets the entry `i` out.
    fn layout_item(
        &self,
        entries: &Vec<ListEntry>,
        selected_entries: &Vec<u32>,
        visibility: DatumVisibility,
        width: u16,
        i: usize,
    ) -> (out: ItemLayout)
        requires
            i < entries.len(),
        ensures
            out@ == self.item(entries@, selected_entries@, visibility, width, i as int),
    {
        let allowed: usize = if width as usize >= LIST_INNER_MARGIN {
            width as usize - LIST_INNER_MARGIN
        } else {
            0
        };
        let entry = &entries[i];
        let same_day = i > 0 && entries[i - 1].date == entry.date;
        let title_lines = if same_day {
            let mut title = chars_of(SAME_DAY_INDENT);
            let rest = chars_of(entry.title.as_str());
            append_range(&mut title, &rest, 0, rest.len());
            assert(rest@.subrange(0, rest@.len() as int) == rest@);
            let shown = string_of(&title);
            wrap_text(shown.as_str(), allowed)
        } else {
            wrap_text(entry.title.as_str(), allowed)
        };
        let title_style = if self.multi_select_mode && contains_id(selected_entries, entry.id) {
            TitleStyle::Selected
        } else if self.is_active {
            TitleStyle::Active
        } else {
            TitleStyle::Inactive
        };
        let sizes = tag_sizes(&entry.tags);
        ItemLayout {
            title_lines,
            title_style,
            date_priority_lines: date_priority_lines_exec(
                visibility,
                entry.date,
                entry.priority,
                allowed,
            ),
            tag_lines: tag_lines_exec(&sizes, allowed),
        }
    }

    /// Sets the list out for `width` columns and `height` rows: every entry
    /// with the lines of its title, of its date and priority and of its
    /// tags; the number of lines of all entries; and, where these are more
    /// than the list shows, the mean height of an entry for the scroll bar.
    pub fn layout(
        &self,
        entries: &Vec<ListEntry>,
        selected_entries: &Vec<u32>,
        visibility: DatumVisibility,
        width: u16,
        height: u16,
    ) -> (out: ListLayout)
        ensures
            out.items@.len() == entries@.len(),
            forall|i: int|
                0 <= i < entries@.len() ==> (#[trigger] out.items@[i])@ == self.item(
                    entries@,
                    selected_entries@,
                    visibility,
                    width,
                    i,
                ),
            out.lines_count == lines_of_items(out.items@, entries@.len() as int),
            out.scrollbar == scrollbar_for(out.lines_count as int, entries@.len() as int, height),
    {
        let mut items: Vec<ItemLayout> = Vec::new();
        let mut lines_count: usize = 0;
        let mut i: usize = 0;
        while i < entries.len()
            invariant
                i <= entries.len(),
                items@.len() == i,
                forall|j: int|
                    0 <= j < i ==> (#[trigger] items@[j])@ == self.item(
                        entries@,
                        selected_entries@,
                        visibility,
                        width,
                        j,
                    ),
                lines_count == lines_of_items(items@, i as int),
            decreases entries.len() - i,
        {
            let item = self.layout_item(entries, selected_entries, visibility, width, i);
            let height_of_item = item.title_lines.len().saturating_add(
                item.date_priority_lines.len(),
            ).saturating_add(item.tag_lines.len());
            let ghost before = items@;
            items.push(item);
            proof {
                lemma_lines_of_items_prefix(before, items@, i as int);
            }
            lines_count = lines_count.saturating_add(height_of_item);
            i += 1;
        }
        let shown: usize = if height >= 2 {
            (height - 2) as usize
        } else {
            0
        };
        let scrollbar = if lines_count > shown && items.len() > 0 {
            Some(lines_count / items.len())
        } else {
            None
        };
        ListLayout { items, lines_count, scrollbar }
    }
}

/// The lines of the first `n` items depend on these items alone.
pub proof fn lemma_lines_of_items_prefix(a: Seq<ItemLayout>, b: Seq<ItemLayout>, n: int)
    requires
        0 <= n <= a.len(),
        n <= b.len(),
        forall|j: int| 0 <= j < n ==> a[j] == b[j],
    ensures
        lines_of_items(a, n) == lines_of_items(b, n),
    decreases n,
{
    if n > 0 {
        lemma_lines_of_items_prefix(a, b, n - 1);
    }
}

} // verus!
