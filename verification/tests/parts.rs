use std::path::PathBuf;

use journal_editor::buffer::Buffer;
use journal_editor::clock::is_short_time_exec;
use journal_editor::command::{
    classify_exec, clipboard_shortcut_exec, vim_command_exec, visual_only_exec, Command,
    EditorMode,
};
use journal_editor::clipboard::ClipboardOperation;
use journal_editor::entry_box::{EntryBox, EntryBoxOutcome};
use journal_editor::error::{map_clipboard_error, EditorError};
use journal_editor::input::{
    default_action_exec, is_default_navigation, Action, Input, KeyCode, KeyModifiers,
};
use journal_editor::motion::{
    char_kind_exec, find_word_start_backward, find_word_start_forward, into_viewport_exec,
    next_cursor_exec, reveal_row, scroll_viewport, CharKind, CursorMove, Scrolling, Viewport,
};
use journal_editor::region::{
    delete_between_exec, insert_at_exec, text_between_exec, Position,
};
use journal_editor::settings::{get_default_json_path, JsonBackend};
use journal_editor::store::{App, Entry, Settings};
use journal_editor::text::{
    chars_of, content_lines_exec, decimal_exec, join_lines_exec, split_text_exec, string_of,
};

fn chars(s: &str) -> Vec<char> {
    s.chars().collect()
}

fn lines(v: &[&str]) -> Vec<Vec<char>> {
    v.iter().map(|s| chars(s)).collect()
}

fn at(row: usize, col: usize) -> Position {
    Position { row, col }
}

fn key(c: char) -> Input {
    Input::new(KeyCode::Char(c), KeyModifiers::none())
}

fn with(code: KeyCode, control: bool, alt: bool, shift: bool) -> Input {
    let mut modifiers = KeyModifiers::none();
    modifiers.control = control;
    modifiers.alt = alt;
    modifiers.shift = shift;
    Input::new(code, modifiers)
}

#[test]
fn default_json_path_is_fixed() {
    assert_eq!(
        get_default_json_path(),
        Ok(PathBuf::from("/Users/nunezcha/Documents/log_cold_storage/entries.json"))
    );
}

#[test]
fn json_backend_default_has_no_path() {
    let backend = JsonBackend::default();
    assert_eq!(backend.file_path, None);
    let configured = JsonBackend { file_path: Some(PathBuf::from("/tmp/j.json")) };
    assert_eq!(configured.file_path.as_deref().and_then(|path| path.to_str()), Some("/tmp/j.json"));
}

#[test]
fn string_conversions_round_trip() {
    assert_eq!(chars_of("héllo"), chars("héllo"));
    assert_eq!(string_of(&chars("héllo")), "héllo");
    assert_eq!(chars_of(""), Vec::<char>::new());
}

#[test]
fn decimal_digits() {
    assert_eq!(string_of(&decimal_exec(0)), "0");
    assert_eq!(string_of(&decimal_exec(7)), "7");
    assert_eq!(string_of(&decimal_exec(10)), "10");
    assert_eq!(string_of(&decimal_exec(4294967295)), "4294967295");
}

#[test]
fn content_lines_follow_line_endings() {
    assert_eq!(content_lines_exec(&chars("")), Vec::<Vec<char>>::new());
    assert_eq!(content_lines_exec(&chars("a")), lines(&["a"]));
    assert_eq!(content_lines_exec(&chars("a\n")), lines(&["a"]));
    assert_eq!(content_lines_exec(&chars("\n")), lines(&[""]));
    assert_eq!(content_lines_exec(&chars("a\n\nb")), lines(&["a", "", "b"]));
    assert_eq!(
        content_lines_exec(&chars("foo\nbar\n\r\nbaz\r")),
        lines(&["foo", "bar", "", "baz\r"])
    );
    assert_eq!(content_lines_exec(&chars("a\r\nb\r\n")), lines(&["a", "b"]));
}

#[test]
fn split_text_keeps_every_piece() {
    assert_eq!(split_text_exec(&chars("")), lines(&[""]));
    assert_eq!(split_text_exec(&chars("a")), lines(&["a"]));
    assert_eq!(split_text_exec(&chars("a\n")), lines(&["a", ""]));
    assert_eq!(split_text_exec(&chars("a\r\nb\r")), lines(&["a", "b"]));
    assert_eq!(split_text_exec(&chars("\r")), lines(&[""]));
    assert_eq!(split_text_exec(&chars("x\ry")), lines(&["x\ry"]));
}

#[test]
fn join_lines_puts_line_feeds_between() {
    assert_eq!(join_lines_exec(&lines(&[])), chars(""));
    assert_eq!(join_lines_exec(&lines(&["a"])), chars("a"));
    assert_eq!(join_lines_exec(&lines(&["a", "", "b"])), chars("a\n\nb"));
    assert_eq!(join_lines_exec(&lines(&["", ""])), chars("\n"));
}

#[test]
fn region_read_delete_insert() {
    let text = lines(&["hello world", "second", "third"]);
    assert_eq!(text_between_exec(&text, at(0, 6), at(0, 11)), lines(&["world"]));
    assert_eq!(text_between_exec(&text, at(0, 6), at(2, 2)), lines(&["world", "second", "th"]));
    assert_eq!(text_between_exec(&text, at(1, 6), at(2, 0)), lines(&["", ""]));
    assert_eq!(delete_between_exec(&text, at(0, 6), at(2, 2)), lines(&["hello ird"]));
    assert_eq!(
        delete_between_exec(&text, at(1, 1), at(1, 3)),
        lines(&["hello world", "sond", "third"])
    );
    let cut = delete_between_exec(&text, at(0, 6), at(2, 2));
    let back = insert_at_exec(&cut, at(0, 6), &lines(&["world", "second", "th"]));
    assert_eq!(back, text);
    assert_eq!(
        insert_at_exec(&text, at(1, 3), &lines(&["XY"])),
        lines(&["hello world", "secXYond", "third"])
    );
    assert_eq!(
        insert_at_exec(&text, at(2, 5), &lines(&["", ""])),
        lines(&["hello world", "second", "third", ""])
    );
}

#[test]
fn char_kinds() {
    assert_eq!(char_kind_exec(' '), CharKind::Space);
    assert_eq!(char_kind_exec('\t'), CharKind::Space);
    assert_eq!(char_kind_exec('\u{3000}'), CharKind::Space);
    assert_eq!(char_kind_exec('!'), CharKind::Punct);
    assert_eq!(char_kind_exec('/'), CharKind::Punct);
    assert_eq!(char_kind_exec('@'), CharKind::Punct);
    assert_eq!(char_kind_exec('`'), CharKind::Punct);
    assert_eq!(char_kind_exec('~'), CharKind::Punct);
    assert_eq!(char_kind_exec('a'), CharKind::Other);
    assert_eq!(char_kind_exec('0'), CharKind::Other);
    assert_eq!(char_kind_exec('é'), CharKind::Other);
    assert_eq!(char_kind_exec('\u{7f}'), CharKind::Other);
}

#[test]
fn white_space_is_the_unicode_property() {
    for c in '\u{0}'..=char::MAX {
        let expected = matches!(
            c,
            '\u{9}'..='\u{d}'
                | ' '
                | '\u{85}'
                | '\u{a0}'
                | '\u{1680}'
                | '\u{2000}'..='\u{200a}'
                | '\u{2028}'
                | '\u{2029}'
                | '\u{202f}'
                | '\u{205f}'
                | '\u{3000}'
        );
        assert_eq!(char_kind_exec(c) == CharKind::Space, expected, "{:?}", c);
    }
    assert_ne!(char_kind_exec('\u{200b}'), CharKind::Space);
    assert_ne!(char_kind_exec('\u{180e}'), CharKind::Space);
}

#[test]
fn entry_box_submits_text_that_is_not_blank() {
    let mut entry_box = EntryBox::new();
    for c in "bought milk".chars() {
        entry_box.apply(Action::Insert(c));
    }
    assert!(!entry_box.is_blank());
    let enter = Input::new(KeyCode::Enter, KeyModifiers::none());
    assert_eq!(entry_box.handle(&enter), EntryBoxOutcome::Submitted("bought milk".to_string()));
    assert_eq!(entry_box.text(), "");
    for c in " \t\u{a0}\u{2003}\u{3000}".chars() {
        entry_box.apply(Action::Insert(c));
    }
    assert!(entry_box.is_blank());
    assert_eq!(entry_box.handle(&enter), EntryBoxOutcome::Consumed);
    assert_eq!(entry_box.text(), "");
}

#[test]
fn word_starts() {
    let line = chars("aaa bbb ccc");
    assert_eq!(find_word_start_forward(&line, 0), Some(4));
    assert_eq!(find_word_start_forward(&line, 4), Some(8));
    assert_eq!(find_word_start_forward(&line, 8), None);
    assert_eq!(find_word_start_forward(&line, 11), None);
    assert_eq!(find_word_start_backward(&line, 11), Some(8));
    assert_eq!(find_word_start_backward(&line, 8), Some(4));
    assert_eq!(find_word_start_backward(&line, 4), Some(0));
    assert_eq!(find_word_start_backward(&line, 0), None);
    let code = chars("fn foo(a)");
    assert_eq!(find_word_start_forward(&code, 3), Some(6));
    assert_eq!(find_word_start_forward(&code, 6), Some(7));
    assert_eq!(find_word_start_forward(&code, 7), Some(8));
    assert_eq!(find_word_start_backward(&chars("  x"), 2), None);
}

#[test]
fn cursor_moves() {
    let text = lines(&["aaa", "", "bbb", "", "ccc", "ddd"]);
    assert_eq!(next_cursor_exec(&text, at(0, 3), CursorMove::Forward), Some(at(1, 0)));
    assert_eq!(next_cursor_exec(&text, at(0, 1), CursorMove::Forward), Some(at(0, 2)));
    assert_eq!(next_cursor_exec(&text, at(5, 3), CursorMove::Forward), None);
    assert_eq!(next_cursor_exec(&text, at(0, 0), CursorMove::Back), None);
    assert_eq!(next_cursor_exec(&text, at(2, 0), CursorMove::Back), Some(at(1, 0)));
    assert_eq!(next_cursor_exec(&text, at(1, 0), CursorMove::Back), Some(at(0, 3)));
    assert_eq!(next_cursor_exec(&text, at(0, 2), CursorMove::Down), Some(at(1, 0)));
    assert_eq!(next_cursor_exec(&text, at(5, 2), CursorMove::Down), None);
    assert_eq!(next_cursor_exec(&text, at(0, 2), CursorMove::Up), None);
    assert_eq!(next_cursor_exec(&text, at(5, 2), CursorMove::Up), Some(at(4, 2)));
    assert_eq!(next_cursor_exec(&text, at(2, 2), CursorMove::Head), Some(at(2, 0)));
    assert_eq!(next_cursor_exec(&text, at(2, 1), CursorMove::End), Some(at(2, 3)));
    assert_eq!(next_cursor_exec(&text, at(3, 0), CursorMove::Top), Some(at(0, 0)));
    assert_eq!(next_cursor_exec(&text, at(0, 2), CursorMove::Bottom), Some(at(5, 2)));
    assert_eq!(next_cursor_exec(&text, at(0, 0), CursorMove::ParagraphForward), Some(at(2, 0)));
    assert_eq!(next_cursor_exec(&text, at(2, 0), CursorMove::ParagraphForward), Some(at(4, 0)));
    assert_eq!(next_cursor_exec(&text, at(4, 1), CursorMove::ParagraphForward), Some(at(5, 1)));
    assert_eq!(next_cursor_exec(&text, at(5, 0), CursorMove::ParagraphBack), Some(at(4, 0)));
    assert_eq!(next_cursor_exec(&text, at(4, 0), CursorMove::ParagraphBack), Some(at(2, 0)));
    assert_eq!(next_cursor_exec(&text, at(2, 0), CursorMove::ParagraphBack), Some(at(0, 0)));
    assert_eq!(next_cursor_exec(&text, at(0, 0), CursorMove::ParagraphBack), None);
    assert_eq!(next_cursor_exec(&text, at(0, 1), CursorMove::WordForward), Some(at(1, 0)));
    assert_eq!(next_cursor_exec(&text, at(5, 1), CursorMove::WordForward), Some(at(5, 3)));
    assert_eq!(next_cursor_exec(&text, at(2, 0), CursorMove::WordBack), Some(at(1, 0)));
    assert_eq!(next_cursor_exec(&text, at(0, 0), CursorMove::WordBack), Some(at(0, 0)));
    assert_eq!(next_cursor_exec(&text, at(0, 2), CursorMove::WordBack), Some(at(0, 0)));
}

#[test]
fn viewport_scrolling() {
    let v = Viewport { top: 10, height: 8 };
    assert_eq!(scroll_viewport(v, Scrolling::PageDown), Viewport { top: 18, height: 8 });
    assert_eq!(scroll_viewport(v, Scrolling::PageUp), Viewport { top: 2, height: 8 });
    assert_eq!(scroll_viewport(v, Scrolling::HalfPageDown), Viewport { top: 14, height: 8 });
    assert_eq!(scroll_viewport(v, Scrolling::HalfPageUp), Viewport { top: 6, height: 8 });
    let low = Viewport { top: 3, height: 8 };
    assert_eq!(scroll_viewport(low, Scrolling::PageUp), Viewport { top: 0, height: 8 });
    let high = Viewport { top: usize::MAX - 2, height: 8 };
    assert_eq!(scroll_viewport(high, Scrolling::PageDown).top, usize::MAX);
    assert_eq!(reveal_row(v, 4, 8), Viewport { top: 4, height: 8 });
    assert_eq!(reveal_row(v, 20, 8), Viewport { top: 13, height: 8 });
    assert_eq!(reveal_row(v, 12, 8), Viewport { top: 10, height: 8 });
    assert_eq!(reveal_row(v, 12, 0), Viewport { top: 12, height: 0 });
    let text: Vec<Vec<char>> = (0..20).map(|i| chars(&i.to_string())).collect();
    assert_eq!(
        into_viewport_exec(&text, at(19, 2), Viewport { top: 0, height: 8 }),
        at(7, 1)
    );
    assert_eq!(
        into_viewport_exec(&text, at(0, 0), Viewport { top: 15, height: 8 }),
        at(15, 0)
    );
    assert_eq!(
        into_viewport_exec(&text, at(0, 0), Viewport { top: 50, height: 8 }),
        at(19, 0)
    );
    assert_eq!(
        into_viewport_exec(&text, at(12, 0), Viewport { top: 10, height: 8 }),
        at(12, 0)
    );
}

#[test]
fn buffer_scroll_moves_cursor_with_window() {
    let content: Vec<String> = (0..20).map(|i| i.to_string()).collect();
    let mut buffer = Buffer::from_content(&content.join("\n"));
    buffer.reveal_cursor(8);
    assert_eq!(buffer.viewport(), Viewport { top: 0, height: 8 });
    buffer.scroll(Scrolling::PageDown, false);
    assert_eq!(buffer.viewport(), Viewport { top: 8, height: 8 });
    assert_eq!(buffer.cursor(), at(8, 0));
    buffer.scroll(Scrolling::HalfPageUp, false);
    assert_eq!(buffer.viewport(), Viewport { top: 4, height: 8 });
    assert_eq!(buffer.cursor(), at(8, 0));
    buffer.move_cursor(CursorMove::Bottom, false);
    buffer.reveal_cursor(8);
    assert_eq!(buffer.viewport(), Viewport { top: 12, height: 8 });
}

#[test]
fn buffer_basic_edits() {
    let mut buffer = Buffer::new();
    assert_eq!(buffer.lines(), vec!["".to_string()]);
    assert_eq!(buffer.line_count(), 1);
    buffer.insert_char('a');
    buffer.insert_char('\n');
    buffer.insert_char('b');
    buffer.insert_char('\r');
    assert_eq!(buffer.content(), "a\nb\n");
    assert_eq!(buffer.cursor(), at(2, 0));
    assert!(buffer.delete_char());
    assert_eq!(buffer.content(), "a\nb");
    assert_eq!(buffer.cursor(), at(1, 1));
    assert!(!buffer.delete_next_char(false));
    buffer.move_cursor(CursorMove::Top, false);
    buffer.move_cursor(CursorMove::Head, false);
    assert!(!buffer.delete_char());
    assert!(buffer.delete_next_char(true));
    assert_eq!(buffer.content(), "\nb");
    assert_eq!(buffer.yank_text(), "a");
    assert!(buffer.delete_line_by_end());
    assert_eq!(buffer.content(), "b");
    assert_eq!(buffer.yank_text(), "\n");
    assert!(buffer.paste());
    assert_eq!(buffer.content(), "\nb");
    assert_eq!(buffer.cursor(), at(1, 0));
    buffer.insert_tab();
    assert_eq!(buffer.content(), "\n    b");
    buffer.insert_newline();
    assert_eq!(buffer.content(), "\n    \nb");
}

#[test]
fn buffer_type_then_backspace_restores() {
    for typed in ['x', '\n', '\r', ' '] {
        let mut buffer = Buffer::from_content("one\ntwo");
        buffer.move_cursor(CursorMove::Top, false);
        buffer.move_cursor(CursorMove::Forward, false);
        buffer.insert_char(typed);
        assert_ne!(buffer.content(), "one\ntwo");
        assert!(buffer.delete_char());
        assert_eq!(buffer.content(), "one\ntwo");
        assert_eq!(buffer.cursor(), at(0, 1));
    }
}

#[test]
fn buffer_selection_replaced_by_typing() {
    let mut buffer = Buffer::from_content("hello world");
    buffer.start_selection();
    buffer.move_cursor(CursorMove::WordForward, true);
    assert_eq!(buffer.selection_start(), Some(at(0, 0)));
    buffer.insert_char('X');
    assert_eq!(buffer.content(), "Xworld");
    assert!(!buffer.is_selecting());
    assert!(buffer.undo());
    assert_eq!(buffer.content(), "hello world");
    assert_eq!(buffer.cursor(), at(0, 6));
    assert!(buffer.redo());
    assert_eq!(buffer.content(), "Xworld");
    assert_eq!(buffer.cursor(), at(0, 1));
    assert!(!buffer.redo());
}

#[test]
fn buffer_cut_copy_without_selection() {
    let mut buffer = Buffer::from_content("abc");
    assert!(!buffer.cut());
    buffer.copy();
    assert_eq!(buffer.yank_text(), "");
    assert!(!buffer.paste());
    assert!(!buffer.undo());
    assert_eq!(buffer.content(), "abc");
    buffer.start_selection();
    assert!(!buffer.cut());
    assert!(!buffer.is_selecting());
}

#[test]
fn buffer_backward_selection_is_ordered() {
    let mut buffer = Buffer::from_content("abc\ndef");
    buffer.move_cursor(CursorMove::Bottom, false);
    buffer.move_cursor(CursorMove::End, false);
    buffer.start_selection();
    buffer.move_cursor(CursorMove::Up, true);
    buffer.move_cursor(CursorMove::Back, true);
    buffer.copy();
    assert_eq!(buffer.yank_text(), "c\ndef");
    assert_eq!(buffer.content(), "abc\ndef");
}

#[test]
fn buffer_insert_str_and_set_content() {
    let mut buffer = Buffer::from_content("ab");
    buffer.move_cursor(CursorMove::Forward, false);
    assert!(buffer.insert_str("1\n2"));
    assert_eq!(buffer.content(), "a1\n2b");
    assert_eq!(buffer.cursor(), at(1, 1));
    assert!(!buffer.insert_str(""));
    assert!(!buffer.insert_str("\r"));
    assert!(buffer.insert_str("\n"));
    assert_eq!(buffer.content(), "a1\n2\nb");
    buffer.set_content("x\ny");
    assert_eq!(buffer.content(), "x\ny");
    assert_eq!(buffer.cursor(), at(1, 1));
    assert!(buffer.undo());
    assert_eq!(buffer.content(), "a1\n2\nb");
    buffer.append_line(chars("tail"));
    assert_eq!(buffer.content(), "a1\n2\nb\ntail");
    assert_eq!(buffer.cursor(), at(3, 4));
}

#[test]
fn buffer_apply_reports_modification() {
    let mut buffer = Buffer::from_content("ab");
    assert!(!buffer.apply(Action::Ignore));
    assert!(!buffer.apply(Action::Move { to: CursorMove::End, keep: false }));
    assert!(!buffer.apply(Action::Scroll { by: Scrolling::PageDown, keep: false }));
    assert!(!buffer.apply(Action::Copy));
    assert!(!buffer.apply(Action::Cut));
    assert!(!buffer.apply(Action::Paste));
    assert!(!buffer.apply(Action::Undo));
    assert!(buffer.apply(Action::Insert('c')));
    assert!(buffer.apply(Action::Newline));
    assert!(buffer.apply(Action::Tab));
    assert!(buffer.apply(Action::Backspace));
    assert!(!buffer.apply(Action::Delete));
    assert!(!buffer.apply(Action::DeleteLineEnd));
    assert!(buffer.apply(Action::Undo));
    assert!(buffer.apply(Action::Redo));
    assert!(!buffer.apply(Action::Redo));
    assert_eq!(buffer.content(), "abc\n   ");
    assert!(buffer.input(&key('z')));
    assert_eq!(buffer.content(), "abc\n   z");
}

#[test]
fn default_navigation_keys() {
    for code in [
        KeyCode::Left, KeyCode::Right, KeyCode::Up, KeyCode::Down, KeyCode::Home, KeyCode::End,
        KeyCode::PageUp, KeyCode::PageDown,
    ] {
        assert!(is_default_navigation(&with(code, false, false, false)));
        assert!(is_default_navigation(&with(code, true, true, true)));
    }
    for c in ['p', 'n', 'e', 'a', 'v'] {
        assert!(!is_default_navigation(&key(c)));
        assert!(is_default_navigation(&with(KeyCode::Char(c), true, false, false)));
        assert!(is_default_navigation(&with(KeyCode::Char(c), false, true, false)));
        assert!(is_default_navigation(&with(KeyCode::Char(c), true, true, false)));
    }
    for c in ['f', 'b'] {
        assert!(!is_default_navigation(&key(c)));
        assert!(!is_default_navigation(&with(KeyCode::Char(c), true, false, false)));
        assert!(is_default_navigation(&with(KeyCode::Char(c), false, true, false)));
        assert!(!is_default_navigation(&with(KeyCode::Char(c), true, true, false)));
    }
    assert!(!is_default_navigation(&with(KeyCode::Char('x'), true, false, false)));
    assert!(!is_default_navigation(&with(KeyCode::Enter, false, false, false)));
    assert!(!is_default_navigation(&with(KeyCode::BackTab, false, false, false)));
}

#[test]
fn default_key_map() {
    let moved = |to| Action::Move { to, keep: false };
    assert_eq!(default_action_exec(&key('a')), Action::Insert('a'));
    assert_eq!(default_action_exec(&with(KeyCode::Char('A'), false, false, true)), Action::Insert('A'));
    assert_eq!(default_action_exec(&key('\n')), Action::Newline);
    assert_eq!(default_action_exec(&with(KeyCode::Enter, true, true, false)), Action::Newline);
    assert_eq!(default_action_exec(&with(KeyCode::Char('m'), true, false, false)), Action::Newline);
    assert_eq!(default_action_exec(&with(KeyCode::Tab, false, false, false)), Action::Tab);
    assert_eq!(default_action_exec(&with(KeyCode::Tab, true, false, false)), Action::Ignore);
    assert_eq!(default_action_exec(&with(KeyCode::Backspace, false, false, false)), Action::Backspace);
    assert_eq!(default_action_exec(&with(KeyCode::Backspace, false, true, false)), Action::Ignore);
    assert_eq!(default_action_exec(&with(KeyCode::Char('h'), true, false, false)), Action::Backspace);
    assert_eq!(default_action_exec(&with(KeyCode::Delete, false, false, false)), Action::Delete);
    assert_eq!(default_action_exec(&with(KeyCode::Char('d'), true, false, false)), Action::Delete);
    assert_eq!(default_action_exec(&with(KeyCode::Char('k'), true, false, false)), Action::DeleteLineEnd);
    assert_eq!(default_action_exec(&with(KeyCode::Char('u'), true, false, false)), Action::Undo);
    assert_eq!(default_action_exec(&with(KeyCode::Char('r'), true, false, false)), Action::Redo);
    assert_eq!(default_action_exec(&with(KeyCode::Char('y'), true, false, false)), Action::Paste);
    assert_eq!(default_action_exec(&with(KeyCode::Char('x'), true, false, false)), Action::Cut);
    assert_eq!(default_action_exec(&with(KeyCode::Char('c'), true, false, false)), Action::Copy);
    assert_eq!(
        default_action_exec(&with(KeyCode::Char('v'), true, false, false)),
        Action::Scroll { by: Scrolling::PageDown, keep: false }
    );
    assert_eq!(
        default_action_exec(&with(KeyCode::Char('v'), false, true, true)),
        Action::Scroll { by: Scrolling::PageUp, keep: true }
    );
    assert_eq!(
        default_action_exec(&with(KeyCode::PageUp, true, false, false)),
        Action::Scroll { by: Scrolling::PageUp, keep: false }
    );
    assert_eq!(default_action_exec(&with(KeyCode::Down, false, false, false)), moved(CursorMove::Down));
    assert_eq!(default_action_exec(&with(KeyCode::Down, true, false, false)), moved(CursorMove::ParagraphForward));
    assert_eq!(default_action_exec(&with(KeyCode::Down, true, true, false)), moved(CursorMove::Bottom));
    assert_eq!(default_action_exec(&with(KeyCode::Down, false, true, false)), Action::Ignore);
    assert_eq!(default_action_exec(&with(KeyCode::Up, true, true, false)), moved(CursorMove::Top));
    assert_eq!(default_action_exec(&with(KeyCode::Left, true, false, false)), moved(CursorMove::WordBack));
    assert_eq!(default_action_exec(&with(KeyCode::Right, true, true, false)), moved(CursorMove::End));
    assert_eq!(default_action_exec(&with(KeyCode::Home, true, true, false)), moved(CursorMove::Head));
    assert_eq!(
        default_action_exec(&with(KeyCode::Right, false, false, true)),
        Action::Move { to: CursorMove::Forward, keep: true }
    );
    assert_eq!(default_action_exec(&with(KeyCode::Char('n'), true, false, false)), moved(CursorMove::Down));
    assert_eq!(default_action_exec(&with(KeyCode::Char('p'), false, true, false)), moved(CursorMove::ParagraphBack));
    assert_eq!(default_action_exec(&with(KeyCode::Char('p'), true, true, false)), moved(CursorMove::Top));
    assert_eq!(default_action_exec(&with(KeyCode::Char('f'), false, true, false)), moved(CursorMove::WordForward));
    assert_eq!(default_action_exec(&with(KeyCode::Char('<'), false, true, false)), moved(CursorMove::Top));
    assert_eq!(default_action_exec(&with(KeyCode::Char('e'), false, true, false)), Action::Ignore);
    assert_eq!(default_action_exec(&with(KeyCode::Char('w'), true, false, false)), Action::Ignore);
    assert_eq!(default_action_exec(&with(KeyCode::Esc, false, false, false)), Action::Ignore);
    assert_eq!(default_action_exec(&with(KeyCode::Other, false, false, false)), Action::Ignore);
}

#[test]
fn dispatch_table() {
    assert_eq!(vim_command_exec(&key('h')), Command::Move(CursorMove::Back));
    assert_eq!(vim_command_exec(&key('j')), Command::Move(CursorMove::Down));
    assert_eq!(vim_command_exec(&key('k')), Command::Move(CursorMove::Up));
    assert_eq!(vim_command_exec(&key('l')), Command::Move(CursorMove::Forward));
    assert_eq!(vim_command_exec(&key('w')), Command::Move(CursorMove::WordForward));
    assert_eq!(vim_command_exec(&key('e')), Command::Move(CursorMove::WordForward));
    assert_eq!(vim_command_exec(&key('b')), Command::Move(CursorMove::WordBack));
    assert_eq!(vim_command_exec(&key('^')), Command::Move(CursorMove::Head));
    assert_eq!(vim_command_exec(&key('$')), Command::Move(CursorMove::End));
    assert_eq!(vim_command_exec(&key('D')), Command::DeleteLineEnd);
    assert_eq!(vim_command_exec(&key('C')), Command::ChangeLineEnd);
    assert_eq!(vim_command_exec(&key('x')), Command::DeleteChar);
    assert_eq!(vim_command_exec(&key('p')), Command::Paste);
    assert_eq!(vim_command_exec(&key('u')), Command::Undo);
    assert_eq!(vim_command_exec(&key('i')), Command::Insert);
    assert_eq!(vim_command_exec(&key('a')), Command::InsertAfter);
    assert_eq!(vim_command_exec(&key('A')), Command::InsertLineEnd);
    assert_eq!(vim_command_exec(&key('I')), Command::InsertLineHead);
    assert_eq!(vim_command_exec(&key('o')), Command::OpenBelow);
    assert_eq!(vim_command_exec(&key('O')), Command::OpenAbove);
    assert_eq!(vim_command_exec(&key('r')), Command::Nothing);
    assert_eq!(vim_command_exec(&key('z')), Command::Nothing);
    assert_eq!(vim_command_exec(&with(KeyCode::Enter, false, false, false)), Command::Nothing);
    let ctrl = |c| with(KeyCode::Char(c), true, false, false);
    assert_eq!(vim_command_exec(&ctrl('r')), Command::Redo);
    assert_eq!(vim_command_exec(&ctrl('d')), Command::Scroll(Scrolling::HalfPageDown));
    assert_eq!(vim_command_exec(&ctrl('u')), Command::Scroll(Scrolling::HalfPageUp));
    assert_eq!(vim_command_exec(&ctrl('f')), Command::Scroll(Scrolling::PageDown));
    assert_eq!(vim_command_exec(&ctrl('b')), Command::Scroll(Scrolling::PageUp));
    assert_eq!(vim_command_exec(&ctrl('x')), Command::Nothing);
    assert_eq!(vim_command_exec(&with(KeyCode::Char('D'), false, false, true)), Command::DeleteLineEnd);

    assert_eq!(visual_only_exec(&key('d')), Some(Command::VisualCut));
    assert_eq!(visual_only_exec(&key('y')), Some(Command::VisualCopy));
    assert_eq!(visual_only_exec(&key('c')), Some(Command::VisualChange));
    assert_eq!(visual_only_exec(&key('x')), None);
    assert_eq!(visual_only_exec(&ctrl('d')), None);
    assert_eq!(visual_only_exec(&with(KeyCode::Char('y'), false, false, true)), None);

    assert_eq!(classify_exec(&key('d'), EditorMode::Visual), Command::VisualCut);
    assert_eq!(classify_exec(&key('d'), EditorMode::Normal), Command::Nothing);
    assert_eq!(classify_exec(&key('x'), EditorMode::Visual), Command::DeleteChar);
    assert_eq!(classify_exec(&key('x'), EditorMode::Insert), Command::Nothing);
    assert_eq!(
        classify_exec(&ctrl('p'), EditorMode::Normal),
        Command::Navigate(Action::Move { to: CursorMove::Up, keep: false })
    );
    assert_eq!(
        classify_exec(&ctrl('a'), EditorMode::Visual),
        Command::Navigate(Action::Move { to: CursorMove::Head, keep: false })
    );
    assert_eq!(
        classify_exec(&with(KeyCode::Char('e'), false, true, false), EditorMode::Insert),
        Command::Navigate(Action::Ignore)
    );
    assert_eq!(classify_exec(&ctrl('f'), EditorMode::Normal), Command::Scroll(Scrolling::PageDown));
    assert_eq!(classify_exec(&key('p'), EditorMode::Normal), Command::Paste);

    assert_eq!(clipboard_shortcut_exec(&ctrl('x')), Some(ClipboardOperation::Cut));
    assert_eq!(clipboard_shortcut_exec(&ctrl('c')), Some(ClipboardOperation::Copy));
    assert_eq!(clipboard_shortcut_exec(&ctrl('v')), Some(ClipboardOperation::Paste));
    assert_eq!(clipboard_shortcut_exec(&ctrl('y')), None);
    assert_eq!(clipboard_shortcut_exec(&key('x')), None);
}

#[test]
fn key_modifiers() {
    assert!(KeyModifiers::none().is_empty());
    assert!(!KeyModifiers::shift().is_empty());
    assert!(KeyModifiers::shift().shift);
    assert!(KeyModifiers::control().control && !KeyModifiers::control().alt);
    assert!(KeyModifiers::alt().alt && !KeyModifiers::alt().control);
    let mut m = KeyModifiers::none();
    m.meta = true;
    assert!(!m.is_empty());
}

#[test]
fn entry_box_edits_one_line() {
    let mut entry = EntryBox::new();
    assert!(!entry.is_active());
    entry.set_active(true);
    assert!(entry.is_active());
    for c in "hello world".chars() {
        assert_eq!(entry.handle(&key(c)), EntryBoxOutcome::Consumed);
    }
    assert_eq!(entry.text(), "hello world");
    assert_eq!(entry.cursor(), 11);
    entry.handle(&with(KeyCode::Backspace, false, false, false));
    assert_eq!(entry.text(), "hello worl");
    entry.handle(&with(KeyCode::Left, true, false, false));
    assert_eq!(entry.cursor(), 6);
    entry.handle(&with(KeyCode::Delete, false, false, false));
    assert_eq!(entry.text(), "hello orl");
    entry.handle(&with(KeyCode::Home, false, false, false));
    assert_eq!(entry.cursor(), 0);
    entry.handle(&with(KeyCode::Left, false, false, false));
    assert_eq!(entry.cursor(), 0);
    entry.handle(&with(KeyCode::Right, true, false, false));
    assert_eq!(entry.cursor(), 6);
    entry.handle(&with(KeyCode::Char('k'), true, false, false));
    assert_eq!(entry.text(), "hello ");
    entry.handle(&key('\n'));
    entry.handle(&with(KeyCode::Char('m'), true, false, false));
    entry.handle(&with(KeyCode::Down, false, false, false));
    entry.handle(&with(KeyCode::Tab, false, false, false));
    assert_eq!(entry.text(), "hello ");
    assert_eq!(entry.cursor(), 6);
    entry.handle(&with(KeyCode::End, false, false, false));
    entry.handle(&key('!'));
    assert_eq!(
        entry.handle(&with(KeyCode::Enter, false, false, false)),
        EntryBoxOutcome::Submitted("hello !".to_string())
    );
    assert_eq!(entry.text(), "");
    assert_eq!(entry.cursor(), 0);
    assert!(entry.is_active());
    assert!(entry.is_blank());
    entry.handle(&key(' '));
    entry.handle(&key('\t'));
    assert!(entry.is_blank());
    assert_eq!(
        entry.handle(&with(KeyCode::Enter, false, false, true)),
        EntryBoxOutcome::Consumed
    );
    assert_eq!(entry.text(), "");
    entry.handle(&key('x'));
    entry.clear();
    assert_eq!(entry.text(), "");
}

#[test]
fn store_lookup() {
    let app = App {
        entries: vec![
            Entry { id: 3, content: "three".to_string() },
            Entry { id: 5, content: "five".to_string() },
            Entry { id: 3, content: "again".to_string() },
        ],
        current_entry_id: Some(5),
        settings: Settings { sync_os_clipboard: true },
    };
    assert_eq!(app.get_entry(3).map(|e| e.content.as_str()), Some("three"));
    assert_eq!(app.get_entry(5).map(|e| e.id), Some(5));
    assert_eq!(app.get_entry(4), None);
    assert_eq!(app.lookup_entry(3).map(|e| e.content.as_str()), Ok("three"));
    assert_eq!(app.lookup_entry(4), Err(EditorError::InvalidEntryReference(4)));
    assert_eq!(app.get_current_entry().map(|e| e.content.as_str()), Some("five"));
    let empty = App::new(Vec::new(), Settings { sync_os_clipboard: false });
    assert_eq!(empty.get_current_entry(), None);
    assert_eq!(empty.current_entry_id, None);
    assert!(!empty.settings.sync_os_clipboard);
}

#[test]
fn error_messages() {
    let e = map_clipboard_error("boom");
    assert_eq!(e, EditorError::ClipboardAccess("boom".to_string()));
    assert_eq!(
        e.message(),
        "Error while communicating with the operating system clipboard.\nError Details: boom"
    );
    assert_eq!(EditorError::PasteRejected.message(), "Text can't be pasted into editor");
    assert_eq!(
        EditorError::InvalidEntryReference(4021).message(),
        "There is no entry with the id 4021"
    );
}

#[test]
fn short_time_shape() {
    assert!(is_short_time_exec(&chars("00:00")));
    assert!(is_short_time_exec(&chars("23:59")));
    assert!(is_short_time_exec(&chars("09:05")));
    assert!(!is_short_time_exec(&chars("24:00")));
    assert!(!is_short_time_exec(&chars("12:60")));
    assert!(!is_short_time_exec(&chars("1:00")));
    assert!(!is_short_time_exec(&chars("12-00")));
    assert!(!is_short_time_exec(&chars("12:0a")));
    assert!(!is_short_time_exec(&chars("12:000")));
}
