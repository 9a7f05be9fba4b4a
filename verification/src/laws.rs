//! What holds of the editor whatever its state and whatever key comes:
//! movement leaves the text alone, undo takes an edit back and redo brings
//! it again, a yank copies what is selected, and the text counts as unsaved
//! exactly while it was edited and differs from what the store holds.

use vstd::prelude::*;
use crate::buffer::initial_lines;
use crate::clipboard::Request;
use crate::command::{
    classify,
    is_movement,
    vim_command,
    visual_only,
    Command,
    EditorMode,
};
use crate::clock::is_short_time;
use crate::count::{
    count_all,
    count_in,
    lemma_count_all_one,
    lemma_count_content_lines,
    lemma_count_in_add,
    lemma_count_in_member,
    lemma_count_insert_char,
    lemma_count_join,
};
use crate::editor::{
    lemma_executed_sound,
    lemma_set_mode_wf,
    lemma_settled_wf,
    stamped,
    EditorView,
};
use crate::entry_box::is_blank;
use crate::input::{
    default_action,
    default_navigation,
    lemma_default_navigation_is_motion,
    Action,
    Input,
    KeyCode,
    KeyModifiers,
};
use crate::model::{
    is_blank_chunk,
    lemma_cut_insert_str,
    lemma_cut_paste,
    lemma_moved_wf,
    lemma_operations_wf,
    lemma_selected,
    lemma_split_joined,
    BufferView,
};
use crate::motion::{next_cursor, CursorMove, Scrolling};
use crate::region::{
    insert_at,
    insert_end,
    lemma_delete_inserted,
    lemma_insert_at,
    lemma_text_between,
};
use crate::text::{content_lines, is_line, join_lines, lemma_content_lines, strip_cr};

verus! {

/// The press of the character key `c` with no modifier held.
pub open spec fn plain_key(c: char) -> Input {
    Input { key_code: KeyCode::Char(c), modifiers: KeyModifiers::spec_none() }
}

/// A key that asks for nothing but movement, in whatever mode it comes: a
/// key of default navigation, or a key that the table of motions and
/// commands takes for a move, a scroll or nothing and that is no command of
/// Visual mode.
pub open spec fn pure_movement(input: Input) -> bool {
    default_navigation(input) || (visual_only(input) is None && is_movement(vim_command(input)))
}

/// The editor after the keys of `keys`, given one after the other to the
/// general handler.
pub open spec fn after_keys(
    v: EditorView,
    keys: Seq<Input>,
    sync: bool,
    stored: Option<Seq<char>>,
) -> EditorView
    decreases keys.len(),
{
    if keys.len() == 0 {
        v
    } else {
        after_keys(v, keys.drop_last(), sync, stored).handled(keys.last(), sync, stored)
    }
}

/// The general handler keeps the invariant of the editor.
pub proof fn lemma_handled_wf(v: EditorView, input: Input, sync: bool, stored: Option<Seq<char>>)
    requires
        v.wf(),
    ensures
        v.handled(input, sync, stored).wf(),
{
    lemma_set_mode_wf(v, EditorMode::Normal);
    let cmd = classify(input, v.mode);
    lemma_executed_sound(v, cmd, sync);
    lemma_settled_wf(v.executed(cmd, sync));
}

/// A command that is movement leaves the text, the register, the history
/// and the dirty flag as they are.
pub proof fn lemma_movement_command(v: EditorView, cmd: Command, sync: bool)
    requires
        v.wf(),
        is_movement(cmd),
    ensures
        v.executed(cmd, sync).buffer.lines == v.buffer.lines,
        v.executed(cmd, sync).buffer.yank == v.buffer.yank,
        v.executed(cmd, sync).buffer.undo == v.buffer.undo,
        v.executed(cmd, sync).buffer.redo == v.buffer.redo,
        v.executed(cmd, sync).is_dirty == v.is_dirty,
{
}

/// One key of pure movement leaves the lines of the buffer and the dirty
/// flag as they are, in every mode and whatever has the focus.
pub proof fn lemma_movement_keeps_text(
    v: EditorView,
    input: Input,
    sync: bool,
    stored: Option<Seq<char>>,
)
    requires
        v.wf(),
        pure_movement(input),
    ensures
        v.handled(input, sync, stored).buffer.lines == v.buffer.lines,
        v.handled(input, sync, stored).is_dirty == v.is_dirty,
        v.handled(input, sync, stored).buffer.undo == v.buffer.undo,
        v.handled(input, sync, stored).wf(),
{
    lemma_handled_wf(v, input, sync, stored);
    let cmd = classify(input, v.mode);
    assert(is_movement(cmd));
    lemma_movement_command(v, cmd, sync);
}

/// Any sequence of keys of pure movement leaves the lines of the buffer and
/// the dirty flag as they are.
pub proof fn lemma_movements_keep_text(
    v: EditorView,
    keys: Seq<Input>,
    sync: bool,
    stored: Option<Seq<char>>,
)
    requires
        v.wf(),
        forall|i: int| 0 <= i < keys.len() ==> pure_movement(#[trigger] keys[i]),
    ensures
        after_keys(v, keys, sync, stored).buffer.lines == v.buffer.lines,
        after_keys(v, keys, sync, stored).is_dirty == v.is_dirty,
        after_keys(v, keys, sync, stored).wf(),
    decreases keys.len(),
{
    if keys.len() > 0 {
        let init = keys.drop_last();
        assert forall|i: int| 0 <= i < init.len() implies pure_movement(#[trigger] init[i]) by {
            assert(init[i] == keys[i]);
        }
        lemma_movements_keep_text(v, init, sync, stored);
        lemma_movement_keeps_text(after_keys(v, init, sync, stored), keys.last(), sync, stored);
    }
}

/// A key of default navigation that the first handler is offered leaves the
/// lines of the buffer and the dirty flag as they are, in every mode and
/// whatever has the focus.
pub proof fn lemma_navigation_keeps_text(
    v: EditorView,
    input: Input,
    sync: bool,
    stored: Option<Seq<char>>,
    time: Seq<char>,
)
    requires
        v.wf(),
        default_navigation(input),
    ensures
        v.prioritized(input, sync, stored, time).buffer.lines == v.buffer.lines,
        v.prioritized(input, sync, stored, time).is_dirty == v.is_dirty,
        v.prioritized(input, sync, stored, time).buffer.undo == v.buffer.undo,
{
    lemma_default_navigation_is_motion(input);
}

/// `after` is what one edit made of `before`: the state of before the edit
/// lies on top of the undo stack, and there is nothing to redo.
pub open spec fn recorded(before: BufferView, after: BufferView) -> bool {
    after.undo == before.undo.push(before.snapshot()) && after.redo.len() == 0
}

/// `after` is `before` with the same text and history, or what one edit
/// made of it.
pub open spec fn stepped(before: BufferView, after: BufferView) -> bool {
    recorded(before, after) || (after.lines == before.lines && after.undo == before.undo
        && after.redo == before.redo)
}

/// After a recorded edit, undo brings back the text and the cursor of before
/// the edit, redo after that undo brings back those of after the edit, and
/// redo right after the edit changes nothing.
pub proof fn lemma_recorded(before: BufferView, after: BufferView)
    requires
        recorded(before, after),
    ensures
        after.undo().lines == before.lines,
        after.undo().cursor == before.cursor,
        after.undo().undo == before.undo,
        after.undo().redo().lines == after.lines,
        after.undo().redo().cursor == after.cursor,
        after.redo() == after,
{
    assert(after.undo.drop_last() == before.undo);
    let u = after.undo();
    assert(u.redo == after.redo.push(after.snapshot()));
    assert(u.redo.last() == after.snapshot());
}

/// Every action but undo and redo leaves text and history as they are or
/// records one edit.
pub proof fn lemma_action_steps(b: BufferView, action: Action)
    requires
        b.wf(),
        !(action is Undo),
        !(action is Redo),
    ensures
        stepped(b, b.apply(action)),
        b.modifies(action) ==> recorded(b, b.apply(action)),
{
}

/// The commands that take an edit back or bring it again.
pub open spec fn is_history(cmd: Command) -> bool {
    cmd is Undo || cmd is Redo || cmd == Command::Navigate(Action::Undo) || cmd
        == Command::Navigate(Action::Redo)
}

/// The state of the buffer in which the command makes its edit: for the two
/// commands that open a line, the buffer after the move that comes first;
/// for every other command, the buffer as it is.
pub open spec fn edit_start(b: BufferView, cmd: Command) -> BufferView {
    match cmd {
        Command::OpenBelow => b.moved(CursorMove::End, true),
        Command::OpenAbove => b.moved(CursorMove::Head, true),
        _ => b,
    }
}

/// `after` is what an operation made of `before`: one recorded edit if
/// `modified` says so, and else the same text and history.
#[verifier::opaque]
pub open spec fn outcome(before: BufferView, after: BufferView, modified: bool) -> bool {
    if modified {
        recorded(before, after)
    } else {
        after.lines == before.lines && after.undo == before.undo && after.redo == before.redo
    }
}

/// The editing operations of the buffer record one edit where they report a
/// modification, and else leave text and history as they are.
proof fn lemma_edit_outcomes(b: BufferView)
    requires
        b.wf(),
    ensures
        outcome(b, b, false),
        outcome(b, b.cut(), b.selected() is Some),
        outcome(b, b.copy(), false),
        outcome(b, b.delete_line_by_end(), b.line_rest() is Some),
        outcome(b, b.delete_next_char(true), b.char_after() is Some),
        outcome(b, b.paste(), b.can_paste()),
        forall|m: CursorMove| outcome(b, #[trigger] b.moved(m, true), false),
        forall|s: Scrolling| outcome(b, #[trigger] b.scrolled(s, true), false),
        forall|action: Action|
            !(action is Undo) && !(action is Redo) ==> outcome(
                b,
                #[trigger] b.apply(action),
                b.modifies(action),
            ),
{
    reveal(outcome);
    assert forall|action: Action| !(action is Undo) && !(action is Redo) implies outcome(
        b,
        #[trigger] b.apply(action),
        b.modifies(action),
    ) by {
        lemma_action_steps(b, action);
    }
}

/// An operation with a known outcome, as a command of the editor performs
/// it, also with a change of mode behind it.
proof fn lemma_outcome_touched(v: EditorView, w: BufferView, modified: bool, mode: EditorMode)
    requires
        outcome(v.buffer, w, modified),
    ensures
        stepped(v.buffer, v.touched(w, modified).buffer),
        stepped(v.buffer, v.touched(w, modified).set_mode(mode).buffer),
        recorded(v.buffer, v.touched(w, modified).buffer) <==> modified,
        recorded(v.buffer, v.touched(w, modified).set_mode(mode).buffer) <==> modified,
        v.touched(w, modified).is_dirty == (v.is_dirty || modified),
        v.touched(w, modified).set_mode(mode).is_dirty == (v.is_dirty || modified),
{
    reveal(outcome);
    assert(v.buffer.undo.push(v.buffer.snapshot()).len() == v.buffer.undo.len() + 1);
}

/// What the three ensures of the lemmas below say of a command: it leaves
/// text and history as they are or records one edit in the buffer as it is,
/// and it marks the text as edited exactly if it records an edit.
pub open spec fn steps_in_place(v: EditorView, w: EditorView) -> bool {
    &&& stepped(v.buffer, w.buffer)
    &&& !recorded(v.buffer, w.buffer) ==> w.is_dirty == v.is_dirty
    &&& recorded(v.buffer, w.buffer) ==> w.is_dirty
}

/// The commands that delete, cut, copy or paste.
proof fn lemma_editing_command_steps(v: EditorView, cmd: Command, sync: bool)
    requires
        v.wf(),
        cmd is VisualCut || cmd is VisualChange || cmd is VisualCopy || cmd is DeleteLineEnd
            || cmd is ChangeLineEnd || cmd is DeleteChar || cmd is Paste,
    ensures
        steps_in_place(v, v.executed(cmd, sync)),
{
    let b = v.buffer;
    lemma_edit_outcomes(b);
    match cmd {
        Command::VisualCut => {
            lemma_outcome_touched(v, b.cut(), b.selected() is Some, EditorMode::Normal);
        },
        Command::VisualChange => {
            lemma_outcome_touched(v, b.cut(), b.selected() is Some, EditorMode::Insert);
        },
        Command::VisualCopy => {
            lemma_outcome_touched(v, b.copy(), false, EditorMode::Normal);
        },
        Command::DeleteLineEnd | Command::ChangeLineEnd => {
            lemma_outcome_touched(
                v,
                b.delete_line_by_end(),
                b.line_rest() is Some,
                EditorMode::Insert,
            );
        },
        Command::DeleteChar => {
            lemma_outcome_touched(
                v,
                b.delete_next_char(true),
                b.char_after() is Some,
                EditorMode::Normal,
            );
        },
        _ => {
            lemma_outcome_touched(v, b.paste(), b.can_paste(), EditorMode::Normal);
            lemma_outcome_touched(v, b, false, EditorMode::Normal);
            assert(v.touched(b, false) == v);
        },
    }
}

/// The commands that move, scroll, change the mode or do nothing.
proof fn lemma_moving_command_steps(v: EditorView, cmd: Command, sync: bool)
    requires
        v.wf(),
        cmd is Move || cmd is Scroll || cmd is Insert || cmd is InsertAfter || cmd is InsertLineEnd
            || cmd is InsertLineHead || cmd is Nothing,
    ensures
        steps_in_place(v, v.executed(cmd, sync)),
{
    let b = v.buffer;
    lemma_edit_outcomes(b);
    match cmd {
        Command::Move(m) => {
            lemma_outcome_touched(v, b.moved(m, true), false, EditorMode::Normal);
        },
        Command::Scroll(s) => {
            lemma_outcome_touched(v, b.scrolled(s, true), false, EditorMode::Normal);
        },
        Command::InsertAfter => {
            lemma_outcome_touched(v, b.moved(CursorMove::Forward, true), false, EditorMode::Insert);
        },
        Command::InsertLineEnd => {
            lemma_outcome_touched(v, b.moved(CursorMove::End, true), false, EditorMode::Insert);
        },
        Command::InsertLineHead => {
            lemma_outcome_touched(v, b.moved(CursorMove::Head, true), false, EditorMode::Insert);
        },
        _ => {
            lemma_outcome_touched(v, b, false, EditorMode::Insert);
            assert(v.touched(b, false) == v);
        },
    }
}

/// The commands of default navigation.
proof fn lemma_navigating_command_steps(v: EditorView, action: Action, sync: bool)
    requires
        v.wf(),
        !(action is Undo),
        !(action is Redo),
    ensures
        steps_in_place(v, v.executed(Command::Navigate(action), sync)),
{
    let b = v.buffer;
    lemma_edit_outcomes(b);
    lemma_outcome_touched(v, b.apply(action), b.modifies(action), EditorMode::Normal);
}

/// A command that makes its edit where the cursor stands.
proof fn lemma_plain_command_steps(v: EditorView, cmd: Command, sync: bool)
    requires
        v.wf(),
        !is_history(cmd),
        !(cmd is OpenBelow),
        !(cmd is OpenAbove),
    ensures
        steps_in_place(v, v.executed(cmd, sync)),
{
    match cmd {
        Command::Navigate(action) => {
            lemma_navigating_command_steps(v, action, sync);
        },
        Command::VisualCut
        | Command::VisualChange
        | Command::VisualCopy
        | Command::DeleteLineEnd
        | Command::ChangeLineEnd
        | Command::DeleteChar
        | Command::Paste => {
            lemma_editing_command_steps(v, cmd, sync);
        },
        _ => {
            lemma_moving_command_steps(v, cmd, sync);
        },
    }
}

/// What a command other than undo and redo does to text and history: it
/// leaves them as they are, or it records one edit, made where `edit_start`
/// says, and marks the text as edited.
pub proof fn lemma_command_steps(v: EditorView, cmd: Command, sync: bool)
    requires
        v.wf(),
        !is_history(cmd),
    ensures
        edit_start(v.buffer, cmd).lines == v.buffer.lines,
        edit_start(v.buffer, cmd).undo == v.buffer.undo,
        stepped(edit_start(v.buffer, cmd), v.executed(cmd, sync).settled().buffer),
        recorded(edit_start(v.buffer, cmd), v.executed(cmd, sync).settled().buffer) ==> v.executed(
            cmd,
            sync,
        ).settled().is_dirty,
        !recorded(edit_start(v.buffer, cmd), v.executed(cmd, sync).settled().buffer) ==> v.executed(
            cmd,
            sync,
        ).settled().is_dirty == v.is_dirty,
{
    if cmd is OpenBelow || cmd is OpenAbove {
        lemma_moved_wf(v.buffer, CursorMove::End, true);
        lemma_moved_wf(v.buffer, CursorMove::Head, true);
    } else {
        lemma_plain_command_steps(v, cmd, sync);
    }
}

/// Undo after a command that changed the text brings back the lines of
/// before the command, and the cursor to where the edit was made; redo
/// after that undo brings back lines and cursor of after the command; and
/// redo right after the command changes nothing, whatever was undone before
/// it.
pub proof fn lemma_undo_restores(v: EditorView, cmd: Command, sync: bool)
    requires
        v.wf(),
        !is_history(cmd),
        v.executed(cmd, sync).settled().buffer.lines != v.buffer.lines,
    ensures
        ({
            let w = v.executed(cmd, sync).settled();
            let u = w.executed(Command::Undo, sync).settled();
            let r = u.executed(Command::Redo, sync).settled();
            &&& w.is_dirty
            &&& u.buffer.lines == v.buffer.lines
            &&& u.buffer.cursor == edit_start(v.buffer, cmd).cursor
            &&& u.buffer.undo == v.buffer.undo
            &&& r.buffer.lines == w.buffer.lines
            &&& r.buffer.cursor == w.buffer.cursor
            &&& w.executed(Command::Redo, sync).buffer == w.buffer
        }),
{
    lemma_command_steps(v, cmd, sync);
    let w = v.executed(cmd, sync).settled();
    lemma_recorded(edit_start(v.buffer, cmd), w.buffer);
}

/// In Visual mode, `y` leads to Normal mode, leaves the text and the dirty
/// flag as they are, and puts the selected text into the register; under
/// the policy that shares the clipboard of the operating system it asks to
/// put the register there, and else for nothing.
pub proof fn lemma_visual_yank(v: EditorView, sync: bool, stored: Option<Seq<char>>)
    requires
        v.wf(),
        v.mode == EditorMode::Visual,
        !v.entry_box.active,
        stored is Some,
    ensures
        ({
            let w = v.handled(plain_key('y'), sync, stored);
            let request = v.handled_request(plain_key('y'), sync, stored);
            &&& w.mode == EditorMode::Normal
            &&& w.buffer.selection is None
            &&& w.buffer.lines == v.buffer.lines
            &&& w.buffer.cursor == v.buffer.cursor
            &&& w.is_dirty == v.is_dirty
            &&& v.buffer.selected() is Some ==> w.buffer.yank == v.buffer.selected_text()
            &&& v.buffer.selected() is None ==> w.buffer.yank == v.buffer.yank
            &&& request == if sync {
                Request::SetText(join_lines(w.buffer.yank))
            } else {
                Request::Nothing
            }
        }),
{
    let input = plain_key('y');
    assert(!default_navigation(input));
    assert(visual_only(input) == Some(Command::VisualCopy));
    assert(classify(input, v.mode) == Command::VisualCopy);
}

/// In Visual mode a move of the table of motions keeps the mode and the
/// anchor: the selection reaches from the anchor to wherever the cursor
/// goes.
pub proof fn lemma_visual_move_extends(
    v: EditorView,
    m: CursorMove,
    sync: bool,
)
    requires
        v.wf(),
        v.mode == EditorMode::Visual,
    ensures
        v.executed(Command::Move(m), sync).settled().mode == EditorMode::Visual,
        v.executed(Command::Move(m), sync).settled().buffer.selection == v.buffer.selection,
        v.executed(Command::Move(m), sync).settled().buffer.lines == v.buffer.lines,
{
}

/// `has_unsaved`, once computed anew, says that the text was edited and
/// differs from the stored content of the current entry. So it is false as
/// soon as the text is that content again.
pub proof fn lemma_unsaved(v: EditorView, stored: Option<Seq<char>>)
    ensures
        v.refreshed(stored).has_unsaved <==> v.is_dirty && stored is Some && stored->0
            != v.buffer.content(),
        stored == Some(v.buffer.content()) ==> !v.refreshed(stored).has_unsaved,
{
}

/// The switch to an entry leaves an editor in order, in Normal mode, with
/// nothing unsaved and no history.
pub proof fn lemma_loaded(v: EditorView, content: Option<Seq<char>>)
    ensures
        v.loaded(content).wf(),
        !v.loaded(content).has_unsaved,
        !v.loaded(content).is_dirty,
        v.loaded(content).mode == EditorMode::Normal,
        v.loaded(content).buffer.undo.len() == 0,
        v.loaded(content).buffer.redo.len() == 0,
        content matches Some(c) ==> v.loaded(content).buffer.lines == initial_lines(c),
{
    match content {
        Some(c) => {
            lemma_content_lines(c);
        },
        None => {},
    }
    let l = v.loaded(content);
    assert(is_line(Seq::<char>::empty()));
    assert(is_line(l.buffer.yank[0]));
}

/// While the buffer holds the lines of the stored content, one character
/// typed in Insert mode makes the text differ from that content, so that it
/// counts as unsaved. (A typed line break is no character in this sense.)
pub proof fn lemma_typing_makes_unsaved(
    v: EditorView,
    content: Seq<char>,
    c: char,
    sync: bool,
    time: Seq<char>,
)
    requires
        v.wf(),
        v.mode == EditorMode::Insert,
        !v.entry_box.active,
        v.buffer.lines == initial_lines(content),
        c != '\n',
        c != '\r',
    ensures
        v.prioritized(plain_key(c), sync, Some(content), time).has_unsaved,
        v.prioritized(plain_key(c), sync, Some(content), time).is_dirty,
        v.prioritized(plain_key(c), sync, Some(content), time).buffer.content() != content,
        v.prioritized(plain_key(c), sync, Some(content), time).mode == EditorMode::Insert,
{
    let input = plain_key(c);
    assert(default_action(input) == Action::Insert(c));
    let b = v.buffer;
    assert(b.selected() is None);
    let typed = b.insert_char(c);
    assert(b.input(input) == typed);
    assert(typed.lines == insert_at(b.lines, b.cursor, seq![seq![c]]));
    lemma_count_insert_char(b.lines, b.cursor, c);
    lemma_count_join(typed.lines, c);
    lemma_count_content_lines(content, c);
    if content_lines(content).len() == 0 {
        lemma_count_all_one(Seq::<char>::empty(), c);
        assert(count_all(Seq::<Seq<char>>::empty(), c) == 0);
    }
    assert(count_all(b.lines, c) == count_in(content, c));
    assert(count_in(typed.content(), c) == count_in(content, c) + 1);
}

/// After the switch to an entry, `i` and then one typed character make the
/// text count as unsaved.
pub proof fn lemma_load_then_type(
    v: EditorView,
    content: Seq<char>,
    c: char,
    sync: bool,
    time: Seq<char>,
)
    requires
        c != '\n',
        c != '\r',
    ensures
        ({
            let loaded = v.loaded(Some(content));
            let inserting = loaded.handled(plain_key('i'), sync, Some(content));
            let typed = inserting.prioritized(plain_key(c), sync, Some(content), time);
            &&& !loaded.has_unsaved
            &&& !inserting.has_unsaved
            &&& inserting.mode == EditorMode::Insert
            &&& typed.has_unsaved
        }),
{
    lemma_loaded(v, Some(content));
    let loaded = v.loaded(Some(content));
    let input = plain_key('i');
    assert(!default_navigation(input));
    assert(classify(input, loaded.mode) == Command::Insert);
    lemma_handled_wf(loaded, input, sync, Some(content));
    let inserting = loaded.handled(input, sync, Some(content));
    lemma_typing_makes_unsaved(inserting, content, c, sync, time);
}

/// The text of a register that holds something is not empty.
pub proof fn lemma_joined_not_empty(chunk: Seq<Seq<char>>)
    requires
        chunk.len() >= 1,
        !is_blank_chunk(chunk),
    ensures
        join_lines(chunk).len() > 0,
{
    if chunk.len() > 1 {
        assert(join_lines(chunk) == join_lines(chunk.drop_last()) + seq!['\n'] + chunk.last());
    }
}

/// Under the policy of the register alone: in Visual mode, `d` cuts the
/// selection and `p` right after it gives the text back, with the cursor
/// behind what was cut.
pub proof fn lemma_cut_then_paste(v: EditorView, stored: Option<Seq<char>>)
    requires
        v.wf(),
        v.mode == EditorMode::Visual,
        !v.entry_box.active,
        stored is Some,
        v.buffer.selected() is Some,
    ensures
        ({
            let cut = v.handled(plain_key('d'), false, stored);
            let pasted = cut.handled(plain_key('p'), false, stored);
            &&& cut.mode == EditorMode::Normal
            &&& cut.is_dirty
            &&& cut.buffer.yank == v.buffer.selected_text()
            &&& v.handled_request(plain_key('d'), false, stored) == Request::Nothing
            &&& pasted.buffer.lines == v.buffer.lines
            &&& v.buffer.selected() matches Some((a, b)) && pasted.buffer.cursor == b
        }),
{
    let d = plain_key('d');
    let p = plain_key('p');
    assert(!default_navigation(d));
    assert(!default_navigation(p));
    assert(visual_only(d) == Some(Command::VisualCut));
    assert(classify(d, EditorMode::Visual) == Command::VisualCut);
    assert(vim_command(p) == Command::Paste);
    assert(classify(p, EditorMode::Normal) == Command::Paste);
    lemma_cut_paste(v.buffer);
    lemma_selected(v.buffer);
    let cut = v.handled(d, false, stored);
    assert(cut.buffer == v.buffer.cut());
}

/// Under the policy that shares the clipboard of the operating system: in
/// Visual mode, `d` cuts the selection and asks to put it on that clipboard;
/// `p` asks to read the clipboard; and the text that was put there, once it
/// comes back, gives the text of the buffer back. This holds unless a line
/// of what was cut ends in a carriage return, which a pasted text loses.
pub proof fn lemma_cut_then_paste_os(v: EditorView, stored: Option<Seq<char>>)
    requires
        v.wf(),
        v.mode == EditorMode::Visual,
        !v.entry_box.active,
        stored is Some,
        v.buffer.selected() is Some,
        forall|i: int|
            0 <= i < v.buffer.selected_text().len() ==> strip_cr(
                #[trigger] v.buffer.selected_text()[i],
            ) == v.buffer.selected_text()[i],
    ensures
        ({
            let cut = v.handled(plain_key('d'), true, stored);
            let text = join_lines(v.buffer.selected_text());
            let pasted = cut.os_pasted(text, stored);
            &&& cut.mode == EditorMode::Normal
            &&& v.handled_request(plain_key('d'), true, stored) == Request::SetText(text)
            &&& cut.handled(plain_key('p'), true, stored).buffer == cut.buffer
            &&& cut.handled_request(plain_key('p'), true, stored) == Request::GetText
            &&& EditorView::takes(text)
            &&& pasted.buffer.lines == v.buffer.lines
        }),
{
    let d = plain_key('d');
    let p = plain_key('p');
    assert(!default_navigation(d));
    assert(!default_navigation(p));
    assert(visual_only(d) == Some(Command::VisualCut));
    assert(classify(d, EditorMode::Visual) == Command::VisualCut);
    assert(vim_command(p) == Command::Paste);
    assert(classify(p, EditorMode::Normal) == Command::Paste);
    lemma_cut_paste(v.buffer);
    lemma_cut_insert_str(v.buffer);
    lemma_selected(v.buffer);
    let chunk = v.buffer.selected_text();
    let (a, b) = v.buffer.selected()->0;
    lemma_text_between(v.buffer.lines, a, b);
    lemma_split_joined(chunk);
    assert(!is_blank_chunk(chunk)) by {
        if a.row == b.row {
            assert(chunk[0].len() == b.col - a.col);
        }
    }
    lemma_joined_not_empty(chunk);
    let cut = v.handled(d, true, stored);
    assert(cut.buffer == v.buffer.cut());
}

/// A typed character or line break, taken back by the backspace key, leaves
/// the text and the cursor as they were: so the text can be edited back to
/// what the store holds.
pub proof fn lemma_type_then_backspace(b: BufferView, c: char)
    requires
        b.wf(),
        b.selection is None,
    ensures
        b.insert_char(c).delete_char().lines == b.lines,
        b.insert_char(c).delete_char().cursor == b.cursor,
{
    let chunk = BufferView::typed(c);
    let typed = b.insert_char(c);
    lemma_delete_inserted(b.lines, b.cursor, chunk);
    lemma_insert_at(b.lines, b.cursor, chunk);
    assert(typed.lines == insert_at(b.lines, b.cursor, chunk));
    assert(typed.cursor == insert_end(b.cursor, chunk));
    assert(typed.selection is None);
    if c == '\n' || c == '\r' {
        assert(typed.lines[b.cursor.row] =~= b.lines[b.cursor.row].take(b.cursor.col));
    }
    assert(next_cursor(typed.lines, typed.cursor, CursorMove::Back) == Some(b.cursor));
    assert(typed.char_before() == Some((b.cursor, typed.cursor)));
}

/// In Insert mode, a typed character and then the backspace key leave the
/// lines of the buffer as they were; so where the text was the stored
/// content before, it is edited but counts as saved again.
pub proof fn lemma_edited_back(
    v: EditorView,
    content: Seq<char>,
    c: char,
    sync: bool,
    time: Seq<char>,
)
    requires
        v.wf(),
        v.mode == EditorMode::Insert,
        !v.entry_box.active,
    ensures
        ({
            let backspace = Input {
                key_code: KeyCode::Backspace,
                modifiers: KeyModifiers::spec_none(),
            };
            let typed = v.prioritized(plain_key(c), sync, Some(content), time);
            let back = typed.prioritized(backspace, sync, Some(content), time);
            &&& back.buffer.lines == v.buffer.lines
            &&& back.buffer.cursor == v.buffer.cursor
            &&& back.is_dirty
            &&& v.buffer.content() == content ==> !back.has_unsaved
        }),
{
    let backspace = Input { key_code: KeyCode::Backspace, modifiers: KeyModifiers::spec_none() };
    let b = v.buffer;
    assert(default_action(backspace) == Action::Backspace);
    assert(b.input(plain_key(c)) == b.insert_char(c));
    lemma_type_then_backspace(b, c);
    lemma_operations_wf(b);
    let typed = v.prioritized(plain_key(c), sync, Some(content), time);
    assert(typed.buffer == b.insert_char(c));
    assert(typed.mode == EditorMode::Insert);
    assert(typed.buffer.input(backspace) == typed.buffer.delete_char());
}

/// Enter in the entry box, on a text that is not blank, adds the note to
/// the buffer as a new last line behind the time, empties the box and marks
/// the text as edited. Where the buffer held the lines of the stored
/// content, or its text was the stored content, the text then counts as
/// unsaved.
pub proof fn lemma_note_makes_unsaved(
    v: EditorView,
    input: Input,
    content: Seq<char>,
    sync: bool,
    time: Seq<char>,
)
    requires
        v.wf(),
        v.entry_box.active,
        input.key_code == KeyCode::Enter,
        !is_blank(v.entry_box.text),
        is_short_time(time),
    ensures
        ({
            let w = v.prioritized(input, sync, Some(content), time);
            &&& w.buffer.lines == v.buffer.lines.push(stamped(time, v.entry_box.text))
            &&& w.entry_box.text.len() == 0
            &&& w.entry_box.active
            &&& w.is_dirty
            &&& v.buffer.lines == initial_lines(content) || v.buffer.content() == content
                ==> w.has_unsaved
        }),
{
    let colon = ':';
    let note = stamped(time, v.entry_box.text);
    let lines = v.buffer.lines;
    let grown = lines.push(note);
    assert(grown.drop_last() =~= lines);
    assert(count_all(grown, colon) == count_all(lines, colon) + count_in(note, colon));
    lemma_count_in_member(time, 2, colon);
    lemma_count_in_add(time + seq![' '], v.entry_box.text, colon);
    lemma_count_in_add(time, seq![' '], colon);
    lemma_count_join(grown, colon);
    lemma_count_join(lines, colon);
    lemma_count_content_lines(content, colon);
    if content_lines(content).len() == 0 {
        lemma_count_all_one(Seq::<char>::empty(), colon);
        assert(count_all(Seq::<Seq<char>>::empty(), colon) == 0);
    }
}

} // verus!
