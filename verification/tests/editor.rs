use journal_editor::clipboard::{ClipboardOperation, ClipboardRequest};
use journal_editor::command::EditorMode;
use journal_editor::editor::Editor;
use journal_editor::error::EditorError;
use journal_editor::input::{HandleInputReturnType, Input, KeyCode, KeyModifiers};
use journal_editor::region::Position;
use journal_editor::store::{App, Entry, Settings};

fn app_with(content: &str, sync: bool) -> App {
    App {
        entries: vec![
            Entry { id: 7, content: "other".to_string() },
            Entry { id: 1, content: content.to_string() },
        ],
        current_entry_id: Some(1),
        settings: Settings { sync_os_clipboard: sync },
    }
}

fn loaded(content: &str, sync: bool) -> (Editor, App) {
    let app = app_with(content, sync);
    let mut editor = Editor::new();
    editor.set_current_entry(Some(1), &app);
    (editor, app)
}

fn key(c: char) -> Input {
    Input::new(KeyCode::Char(c), KeyModifiers::none())
}

fn ctrl(c: char) -> Input {
    Input::new(KeyCode::Char(c), KeyModifiers::control())
}

fn plain(code: KeyCode) -> Input {
    Input::new(code, KeyModifiers::none())
}

fn press(editor: &mut Editor, app: &App, input: Input) -> ClipboardRequest {
    let (handled, request) = editor.handle_input(&input, app);
    assert_eq!(handled, HandleInputReturnType::Handled);
    request
}

fn type_text(editor: &mut Editor, app: &App, text: &str) {
    for c in text.chars() {
        let (handled, request) = editor.handle_input_prioritized(&key(c), app);
        assert_eq!(handled, HandleInputReturnType::Handled);
        assert_eq!(request, ClipboardRequest::Nothing);
    }
}

fn at(row: usize, col: usize) -> Position {
    Position { row, col }
}

#[test]
fn new_editor_is_empty_and_normal() {
    let editor = Editor::new();
    assert_eq!(editor.get_editor_mode(), EditorMode::Normal);
    assert!(!editor.is_insert_mode());
    assert!(!editor.is_visual_mode());
    assert!(!editor.is_prioritized());
    assert!(!editor.is_active());
    assert!(!editor.is_entry_active());
    assert!(!editor.is_dirty());
    assert!(!editor.has_unsaved());
    assert_eq!(editor.get_content(), "");
    assert_eq!(editor.buffer().lines(), vec!["".to_string()]);
}

#[test]
fn load_puts_cursor_at_end_of_content() {
    let (editor, _app) = loaded("first\nsecond line", false);
    assert_eq!(editor.buffer().lines(), vec!["first".to_string(), "second line".to_string()]);
    assert_eq!(editor.buffer().cursor(), at(1, 11));
    assert_eq!(editor.get_editor_mode(), EditorMode::Normal);
    assert!(!editor.has_unsaved());
    assert!(!editor.is_dirty());
}

#[test]
fn load_unknown_entry_empties_without_error() {
    let (mut editor, app) = loaded("text", false);
    press(&mut editor, &app, key('i'));
    type_text(&mut editor, &app, "x");
    assert!(editor.is_dirty());
    editor.set_current_entry(Some(99), &app);
    assert_eq!(editor.get_content(), "");
    assert_eq!(editor.buffer().lines(), vec!["".to_string()]);
    assert_eq!(editor.buffer().cursor(), at(0, 0));
    assert_eq!(editor.get_editor_mode(), EditorMode::Normal);
    assert!(!editor.is_dirty());
    assert!(!editor.has_unsaved());
    assert!(!editor.buffer().can_undo());
}

#[test]
fn load_none_empties_and_resets() {
    let (mut editor, app) = loaded("abc", false);
    press(&mut editor, &app, key('i'));
    type_text(&mut editor, &app, "x");
    assert!(editor.has_unsaved());
    editor.set_current_entry(None, &app);
    assert_eq!(editor.get_content(), "");
    assert_eq!(editor.get_editor_mode(), EditorMode::Normal);
    assert!(!editor.is_dirty());
    assert!(!editor.has_unsaved());
    assert!(!editor.buffer().can_undo());
}

#[test]
fn load_discards_undo_history() {
    let (mut editor, app) = loaded("abc", false);
    press(&mut editor, &app, key('x'));
    editor.set_current_entry(Some(1), &app);
    assert!(!editor.buffer().can_undo());
    press(&mut editor, &app, key('u'));
    assert_eq!(editor.get_content(), "abc");
}

#[test]
fn scenario_insert_two() {
    let (mut editor, app) = loaded("line one", false);
    press(&mut editor, &app, key('i'));
    assert!(editor.is_insert_mode());
    type_text(&mut editor, &app, " two");
    editor.set_editor_mode(EditorMode::Normal);
    assert_eq!(editor.get_content(), "line one two");
    assert!(editor.has_unsaved());
    assert_eq!(editor.get_editor_mode(), EditorMode::Normal);
}

#[test]
fn scenario_entry_box_submits_note() {
    let (mut editor, app) = loaded("line one", false);
    editor.set_active(true);
    assert!(editor.is_entry_active());
    type_text(&mut editor, &app, "bought milk");
    assert_eq!(editor.entry_box().text(), "bought milk");
    assert!(!editor.has_unsaved());
    let (handled, request) = editor.handle_input_prioritized(&plain(KeyCode::Enter), &app);
    assert_eq!(handled, HandleInputReturnType::Handled);
    assert_eq!(request, ClipboardRequest::Nothing);
    let lines = editor.buffer().lines();
    assert_eq!(lines.len(), 2);
    assert_eq!(lines[0], "line one");
    let last: Vec<char> = lines[1].chars().collect();
    assert_eq!(last.len(), 5 + 1 + "bought milk".len());
    assert!(last[0].is_ascii_digit() && last[1].is_ascii_digit());
    assert_eq!(last[2], ':');
    assert!(last[3].is_ascii_digit() && last[4].is_ascii_digit());
    let hour: u32 = lines[1][0..2].parse().unwrap();
    let minute: u32 = lines[1][3..5].parse().unwrap();
    assert!(hour < 24 && minute < 60);
    assert_eq!(&lines[1][5..], " bought milk");
    assert_eq!(editor.entry_box().text(), "");
    assert!(editor.has_unsaved());
    assert!(editor.is_dirty());
}

#[test]
fn append_entry_formats_line() {
    let (mut editor, app) = loaded("line one", false);
    editor.append_entry("09:05", "bought milk", &app);
    assert_eq!(editor.get_content(), "line one\n09:05 bought milk");
    assert_eq!(editor.buffer().cursor(), at(1, 17));
    assert!(editor.has_unsaved());
    press(&mut editor, &app, key('u'));
    assert_eq!(editor.get_content(), "line one");
    assert!(!editor.has_unsaved());
}

#[test]
fn append_entry_to_empty_buffer_keeps_first_line() {
    let (mut editor, app) = loaded("", false);
    editor.append_entry("23:59", "note", &app);
    assert_eq!(editor.buffer().lines(), vec!["".to_string(), "23:59 note".to_string()]);
}

#[test]
fn entry_box_blank_enter_clears_without_submitting() {
    let (mut editor, app) = loaded("line one", false);
    editor.set_active(true);
    type_text(&mut editor, &app, "   ");
    let (handled, _) = editor.handle_input_prioritized(&plain(KeyCode::Enter), &app);
    assert_eq!(handled, HandleInputReturnType::Handled);
    assert_eq!(editor.entry_box().text(), "");
    assert_eq!(editor.get_content(), "line one");
    assert!(!editor.has_unsaved());
    assert!(!editor.is_dirty());
}

#[test]
fn scenario_no_entry_swallows_keys() {
    let mut app = app_with("abc", false);
    app.current_entry_id = None;
    let mut editor = Editor::new();
    editor.set_current_entry(None, &app);
    for input in [key('i'), key('x'), key('o'), plain(KeyCode::BackTab), plain(KeyCode::Down)] {
        let (handled, request) = editor.handle_input(&input, &app);
        assert_eq!(handled, HandleInputReturnType::Handled);
        assert_eq!(request, ClipboardRequest::Nothing);
    }
    assert_eq!(editor.buffer().lines(), vec!["".to_string()]);
    assert_eq!(editor.get_editor_mode(), EditorMode::Normal);
    assert!(!editor.is_entry_active());
    assert!(!editor.is_dirty());
}

#[test]
fn prioritized_not_found_in_normal_mode() {
    let (mut editor, app) = loaded("abc", false);
    let (handled, request) = editor.handle_input_prioritized(&key('x'), &app);
    assert_eq!(handled, HandleInputReturnType::NotFound);
    assert_eq!(request, ClipboardRequest::Nothing);
    assert_eq!(editor.get_content(), "abc");
}

#[test]
fn prioritized_not_found_in_visual_mode() {
    let (mut editor, app) = loaded("abc", false);
    editor.set_editor_mode(EditorMode::Visual);
    assert!(editor.is_prioritized());
    let (handled, _) = editor.handle_input_prioritized(&key('d'), &app);
    assert_eq!(handled, HandleInputReturnType::NotFound);
    assert_eq!(editor.get_content(), "abc");
}

#[test]
fn movement_keeps_content_and_dirty() {
    let (mut editor, app) = loaded("one two\nthree\n\nfour five", false);
    let keys = [
        key('h'), key('j'), key('k'), key('l'), key('w'), key('e'), key('b'), key('^'), key('$'),
        plain(KeyCode::Left), plain(KeyCode::Right), plain(KeyCode::Up), plain(KeyCode::Down),
        plain(KeyCode::Home), plain(KeyCode::End), plain(KeyCode::PageUp),
        plain(KeyCode::PageDown), ctrl('p'), ctrl('n'), ctrl('a'), ctrl('e'), ctrl('v'),
        Input::new(KeyCode::Char('f'), KeyModifiers::alt()),
        Input::new(KeyCode::Char('b'), KeyModifiers::alt()),
        Input::new(KeyCode::Char('p'), KeyModifiers::alt()),
        Input::new(KeyCode::Char('n'), KeyModifiers::alt()),
        ctrl('d'), ctrl('u'), ctrl('f'), ctrl('b'),
    ];
    for input in keys {
        let request = press(&mut editor, &app, input);
        assert_eq!(request, ClipboardRequest::Nothing);
        assert_eq!(editor.get_content(), "one two\nthree\n\nfour five");
        assert!(!editor.is_dirty());
        assert!(!editor.has_unsaved());
        assert_eq!(editor.get_editor_mode(), EditorMode::Normal);
    }
}

#[test]
fn vim_motions_move_cursor() {
    let (mut editor, app) = loaded("one two\nthree", false);
    assert_eq!(editor.buffer().cursor(), at(1, 5));
    press(&mut editor, &app, key('k'));
    assert_eq!(editor.buffer().cursor(), at(0, 5));
    press(&mut editor, &app, key('^'));
    assert_eq!(editor.buffer().cursor(), at(0, 0));
    press(&mut editor, &app, key('w'));
    assert_eq!(editor.buffer().cursor(), at(0, 4));
    press(&mut editor, &app, key('e'));
    assert_eq!(editor.buffer().cursor(), at(1, 0));
    press(&mut editor, &app, key('b'));
    assert_eq!(editor.buffer().cursor(), at(0, 7));
    press(&mut editor, &app, key('b'));
    assert_eq!(editor.buffer().cursor(), at(0, 4));
    press(&mut editor, &app, key('h'));
    assert_eq!(editor.buffer().cursor(), at(0, 3));
    press(&mut editor, &app, key('l'));
    assert_eq!(editor.buffer().cursor(), at(0, 4));
    press(&mut editor, &app, key('$'));
    assert_eq!(editor.buffer().cursor(), at(0, 7));
    press(&mut editor, &app, key('l'));
    assert_eq!(editor.buffer().cursor(), at(1, 0));
    press(&mut editor, &app, key('j'));
    assert_eq!(editor.buffer().cursor(), at(1, 0));
}

#[test]
fn delete_char_and_undo_redo() {
    let (mut editor, app) = loaded("abc", false);
    press(&mut editor, &app, key('^'));
    press(&mut editor, &app, key('x'));
    assert_eq!(editor.get_content(), "bc");
    assert_eq!(editor.buffer().yank_text(), "a");
    assert!(editor.has_unsaved());
    press(&mut editor, &app, key('u'));
    assert_eq!(editor.get_content(), "abc");
    assert_eq!(editor.buffer().cursor(), at(0, 0));
    assert!(editor.is_dirty());
    assert!(!editor.has_unsaved());
    press(&mut editor, &app, ctrl('r'));
    assert_eq!(editor.get_content(), "bc");
    assert!(editor.has_unsaved());
}

#[test]
fn edit_after_undo_clears_redo() {
    let (mut editor, app) = loaded("abc", false);
    press(&mut editor, &app, key('^'));
    press(&mut editor, &app, key('x'));
    press(&mut editor, &app, key('u'));
    assert!(editor.buffer().can_redo());
    press(&mut editor, &app, key('D'));
    assert_eq!(editor.get_content(), "");
    assert!(!editor.buffer().can_redo());
    press(&mut editor, &app, ctrl('r'));
    assert_eq!(editor.get_content(), "");
}

#[test]
fn delete_to_line_end_fills_register() {
    let (mut editor, app) = loaded("hello world\nnext", false);
    press(&mut editor, &app, key('k'));
    press(&mut editor, &app, key('^'));
    press(&mut editor, &app, key('w'));
    let request = press(&mut editor, &app, key('D'));
    assert_eq!(request, ClipboardRequest::Nothing);
    assert_eq!(editor.get_content(), "hello \nnext");
    assert_eq!(editor.buffer().yank_text(), "world");
    assert_eq!(editor.get_editor_mode(), EditorMode::Normal);
    let request = press(&mut editor, &app, key('D'));
    assert_eq!(request, ClipboardRequest::Nothing);
    assert_eq!(editor.get_content(), "hello next");
    assert_eq!(editor.buffer().yank_text(), "\n");
}

#[test]
fn change_to_line_end_enters_insert() {
    let (mut editor, app) = loaded("hello world", false);
    press(&mut editor, &app, key('^'));
    press(&mut editor, &app, key('C'));
    assert_eq!(editor.get_content(), "");
    assert_eq!(editor.buffer().yank_text(), "hello world");
    assert!(editor.is_insert_mode());
}

#[test]
fn insert_mode_entries() {
    let (mut editor, app) = loaded("ab\ncd", false);
    press(&mut editor, &app, key('k'));
    press(&mut editor, &app, key('^'));
    press(&mut editor, &app, key('a'));
    assert!(editor.is_insert_mode());
    assert_eq!(editor.buffer().cursor(), at(0, 1));
    editor.set_editor_mode(EditorMode::Normal);
    press(&mut editor, &app, key('A'));
    assert_eq!(editor.buffer().cursor(), at(0, 2));
    editor.set_editor_mode(EditorMode::Normal);
    press(&mut editor, &app, key('I'));
    assert_eq!(editor.buffer().cursor(), at(0, 0));
    assert!(editor.is_insert_mode());
    assert_eq!(editor.get_content(), "ab\ncd");
    assert!(!editor.is_dirty());
}

#[test]
fn open_line_below_and_above() {
    let (mut editor, app) = loaded("ab\ncd", false);
    press(&mut editor, &app, key('k'));
    press(&mut editor, &app, key('o'));
    assert_eq!(editor.get_content(), "ab\n\ncd");
    assert_eq!(editor.buffer().cursor(), at(1, 0));
    assert!(editor.is_insert_mode());
    assert!(editor.has_unsaved());
    editor.set_editor_mode(EditorMode::Normal);
    press(&mut editor, &app, key('j'));
    press(&mut editor, &app, key('O'));
    assert_eq!(editor.get_content(), "ab\n\n\ncd");
    assert_eq!(editor.buffer().cursor(), at(2, 0));
    assert!(editor.is_insert_mode());
}

#[test]
fn visual_copy_keeps_content_and_returns_to_normal() {
    let (mut editor, app) = loaded("hello world", false);
    press(&mut editor, &app, key('^'));
    editor.set_editor_mode(EditorMode::Visual);
    assert!(editor.is_visual_mode());
    assert!(editor.buffer().is_selecting());
    press(&mut editor, &app, key('w'));
    assert!(editor.is_visual_mode());
    let request = press(&mut editor, &app, key('y'));
    assert_eq!(request, ClipboardRequest::Nothing);
    assert_eq!(editor.get_editor_mode(), EditorMode::Normal);
    assert!(!editor.buffer().is_selecting());
    assert_eq!(editor.buffer().yank_text(), "hello ");
    assert_eq!(editor.get_content(), "hello world");
    assert!(!editor.is_dirty());
    assert!(!editor.has_unsaved());
}

#[test]
fn visual_copy_under_os_policy_requests_write() {
    let (mut editor, app) = loaded("hello world\nsecond", true);
    press(&mut editor, &app, key('k'));
    press(&mut editor, &app, key('^'));
    editor.set_editor_mode(EditorMode::Visual);
    press(&mut editor, &app, key('j'));
    press(&mut editor, &app, key('l'));
    let request = press(&mut editor, &app, key('y'));
    assert_eq!(request, ClipboardRequest::SetText("hello world\ns".to_string()));
    assert_eq!(editor.buffer().yank_text(), "hello world\ns");
    assert_eq!(editor.get_editor_mode(), EditorMode::Normal);
    assert_eq!(editor.get_content(), "hello world\nsecond");
}

#[test]
fn visual_cut_then_paste_restores_content_local() {
    let (mut editor, app) = loaded("hello world\nsecond", false);
    press(&mut editor, &app, key('k'));
    press(&mut editor, &app, key('^'));
    press(&mut editor, &app, key('w'));
    editor.set_editor_mode(EditorMode::Visual);
    press(&mut editor, &app, key('j'));
    assert_eq!(editor.buffer().cursor(), at(1, 6));
    let request = press(&mut editor, &app, key('d'));
    assert_eq!(request, ClipboardRequest::Nothing);
    assert_eq!(editor.get_editor_mode(), EditorMode::Normal);
    assert_eq!(editor.get_content(), "hello ");
    assert_eq!(editor.buffer().yank_text(), "world\nsecond");
    assert_eq!(editor.buffer().cursor(), at(0, 6));
    assert!(editor.has_unsaved());
    press(&mut editor, &app, key('p'));
    assert_eq!(editor.get_content(), "hello world\nsecond");
    assert_eq!(editor.buffer().cursor(), at(1, 6));
    assert!(editor.is_dirty());
    assert!(!editor.has_unsaved());
}

#[test]
fn visual_cut_then_paste_restores_content_os() {
    let (mut editor, app) = loaded("hello world\nsecond", true);
    press(&mut editor, &app, key('k'));
    press(&mut editor, &app, key('^'));
    press(&mut editor, &app, key('w'));
    editor.set_editor_mode(EditorMode::Visual);
    press(&mut editor, &app, key('j'));
    let request = press(&mut editor, &app, key('d'));
    let written = match request {
        ClipboardRequest::SetText(text) => text,
        other => panic!("expected a write request, got {:?}", other),
    };
    assert_eq!(written, "world\nsecond");
    assert_eq!(editor.get_content(), "hello ");
    let request = press(&mut editor, &app, key('p'));
    assert_eq!(request, ClipboardRequest::GetText);
    assert_eq!(editor.get_content(), "hello ");
    let out = editor.paste_os_text(Ok(written), &app);
    assert_eq!(out, Ok(HandleInputReturnType::Handled));
    assert_eq!(editor.get_content(), "hello world\nsecond");
    assert!(!editor.has_unsaved());
}

#[test]
fn visual_change_cuts_and_enters_insert() {
    let (mut editor, app) = loaded("hello world", false);
    press(&mut editor, &app, key('^'));
    editor.set_editor_mode(EditorMode::Visual);
    press(&mut editor, &app, key('w'));
    press(&mut editor, &app, key('c'));
    assert!(editor.is_insert_mode());
    assert!(!editor.buffer().is_selecting());
    assert_eq!(editor.get_content(), "world");
    assert_eq!(editor.buffer().yank_text(), "hello ");
}

#[test]
fn visual_keys_with_modifier_fall_through() {
    let (mut editor, app) = loaded("hello world", false);
    press(&mut editor, &app, key('^'));
    editor.set_editor_mode(EditorMode::Visual);
    press(&mut editor, &app, key('w'));
    press(&mut editor, &app, Input::new(KeyCode::Char('y'), KeyModifiers::shift()));
    assert!(editor.is_visual_mode());
    assert_eq!(editor.buffer().yank_text(), "");
    let request = press(&mut editor, &app, ctrl('d'));
    assert_eq!(request, ClipboardRequest::Nothing);
    assert_eq!(editor.get_content(), "hello world");
}

#[test]
fn arrow_without_shift_leaves_visual_mode() {
    let (mut editor, app) = loaded("hello world", false);
    press(&mut editor, &app, key('^'));
    editor.set_editor_mode(EditorMode::Visual);
    press(&mut editor, &app, Input::new(KeyCode::Right, KeyModifiers::shift()));
    assert!(editor.is_visual_mode());
    assert_eq!(editor.buffer().cursor(), at(0, 1));
    press(&mut editor, &app, plain(KeyCode::Right));
    assert_eq!(editor.get_editor_mode(), EditorMode::Normal);
    assert!(!editor.buffer().is_selecting());
    assert_eq!(editor.buffer().cursor(), at(0, 2));
}

#[test]
fn shift_arrow_in_normal_mode_opens_no_selection() {
    let (mut editor, app) = loaded("hello", false);
    press(&mut editor, &app, Input::new(KeyCode::Left, KeyModifiers::shift()));
    assert_eq!(editor.get_editor_mode(), EditorMode::Normal);
    assert!(!editor.buffer().is_selecting());
    assert_eq!(editor.buffer().cursor(), at(0, 4));
}

#[test]
fn mode_transitions_couple_selection() {
    let (mut editor, _app) = loaded("hello", false);
    editor.set_editor_mode(EditorMode::Visual);
    assert_eq!(editor.buffer().selection_start(), Some(at(0, 5)));
    editor.set_editor_mode(EditorMode::Visual);
    assert_eq!(editor.buffer().selection_start(), Some(at(0, 5)));
    editor.set_editor_mode(EditorMode::Insert);
    assert_eq!(editor.buffer().selection_start(), None);
    assert_eq!(editor.buffer().cursor(), at(0, 5));
    editor.set_editor_mode(EditorMode::Visual);
    assert!(editor.buffer().is_selecting());
    editor.set_editor_mode(EditorMode::Normal);
    assert!(!editor.buffer().is_selecting());
    editor.set_editor_mode(EditorMode::Insert);
    assert!(editor.is_insert_mode());
    editor.set_editor_mode(EditorMode::Normal);
    assert_eq!(editor.get_editor_mode(), EditorMode::Normal);
}

#[test]
fn unsaved_follows_content() {
    let (mut editor, app) = loaded("line one", false);
    assert!(!editor.has_unsaved());
    press(&mut editor, &app, key('i'));
    type_text(&mut editor, &app, "!");
    assert!(editor.has_unsaved());
    assert!(editor.is_dirty());
    let (handled, _) = editor.handle_input_prioritized(&plain(KeyCode::Backspace), &app);
    assert_eq!(handled, HandleInputReturnType::Handled);
    assert_eq!(editor.get_content(), "line one");
    assert!(editor.is_dirty());
    assert!(!editor.has_unsaved());
}

#[test]
fn refresh_has_unsaved_reads_the_store() {
    let (mut editor, mut app) = loaded("line one", false);
    press(&mut editor, &app, key('x'));
    press(&mut editor, &app, key('^'));
    press(&mut editor, &app, key('x'));
    assert_eq!(editor.get_content(), "ine one");
    assert!(editor.has_unsaved());
    app.entries[1].content = editor.get_content();
    editor.refresh_has_unsaved(&app);
    assert!(!editor.has_unsaved());
    app.current_entry_id = None;
    editor.refresh_has_unsaved(&app);
    assert!(!editor.has_unsaved());
}

#[test]
fn insert_mode_keys_edit_text() {
    let (mut editor, app) = loaded("ab", false);
    press(&mut editor, &app, key('i'));
    editor.handle_input_prioritized(&plain(KeyCode::Enter), &app);
    assert_eq!(editor.get_content(), "ab\n");
    type_text(&mut editor, &app, "cd");
    editor.handle_input_prioritized(&plain(KeyCode::Home), &app);
    editor.handle_input_prioritized(&plain(KeyCode::Delete), &app);
    assert_eq!(editor.get_content(), "ab\nd");
    editor.handle_input_prioritized(&plain(KeyCode::Tab), &app);
    assert_eq!(editor.get_content(), "ab\n    d");
    editor.handle_input_prioritized(&key('x'), &app);
    editor.handle_input_prioritized(&plain(KeyCode::Tab), &app);
    assert_eq!(editor.get_content(), "ab\n    x   d");
    editor.handle_input_prioritized(&ctrl('u'), &app);
    assert_eq!(editor.get_content(), "ab\n    xd");
    editor.handle_input_prioritized(&ctrl('r'), &app);
    assert_eq!(editor.get_content(), "ab\n    x   d");
    editor.handle_input_prioritized(&ctrl('k'), &app);
    assert_eq!(editor.get_content(), "ab\n    x   ");
    editor.handle_input_prioritized(&ctrl('y'), &app);
    assert_eq!(editor.get_content(), "ab\n    x   d");
    let before = editor.get_content();
    editor.handle_input_prioritized(&ctrl('w'), &app);
    editor.handle_input_prioritized(&plain(KeyCode::Esc), &app);
    editor.handle_input_prioritized(&plain(KeyCode::F(5)), &app);
    assert_eq!(editor.get_content(), before);
    assert!(editor.is_insert_mode());
}

#[test]
fn insert_mode_clipboard_shortcuts_under_os_policy() {
    let (mut editor, app) = loaded("ab", true);
    press(&mut editor, &app, key('^'));
    press(&mut editor, &app, key('x'));
    press(&mut editor, &app, key('i'));
    let (handled, request) = editor.handle_input_prioritized(&ctrl('c'), &app);
    assert_eq!(handled, HandleInputReturnType::Handled);
    assert_eq!(request, ClipboardRequest::SetText("a".to_string()));
    let (_, request) = editor.handle_input_prioritized(&ctrl('x'), &app);
    assert_eq!(request, ClipboardRequest::SetText("a".to_string()));
    let (_, request) = editor.handle_input_prioritized(&ctrl('v'), &app);
    assert_eq!(request, ClipboardRequest::GetText);
    assert_eq!(editor.get_content(), "b");
}

#[test]
fn insert_mode_control_v_scrolls_under_local_policy() {
    let (mut editor, app) = loaded("ab", false);
    press(&mut editor, &app, key('i'));
    let (handled, request) = editor.handle_input_prioritized(&ctrl('v'), &app);
    assert_eq!(handled, HandleInputReturnType::Handled);
    assert_eq!(request, ClipboardRequest::Nothing);
    assert_eq!(editor.get_content(), "ab");
}

#[test]
fn exec_os_clipboard_requests() {
    let (mut editor, app) = loaded("hello world", true);
    press(&mut editor, &app, key('^'));
    editor.set_editor_mode(EditorMode::Visual);
    press(&mut editor, &app, key('w'));
    let request = editor.exec_os_clipboard(ClipboardOperation::Copy, &app);
    assert_eq!(request, ClipboardRequest::SetText("hello ".to_string()));
    assert_eq!(editor.get_editor_mode(), EditorMode::Normal);
    assert_eq!(editor.get_content(), "hello world");
    editor.set_editor_mode(EditorMode::Visual);
    press(&mut editor, &app, key('$'));
    let request = editor.exec_os_clipboard(ClipboardOperation::Cut, &app);
    assert_eq!(request, ClipboardRequest::SetText("world".to_string()));
    assert_eq!(editor.get_content(), "hello ");
    assert!(editor.has_unsaved());
    let request = editor.exec_os_clipboard(ClipboardOperation::Paste, &app);
    assert_eq!(request, ClipboardRequest::GetText);
    assert_eq!(editor.get_content(), "hello ");
}

#[test]
fn paste_os_text_failure_leaves_state() {
    let (mut editor, app) = loaded("abc", true);
    let out = editor.paste_os_text(Err("no display".to_string()), &app);
    assert_eq!(out, Err(EditorError::ClipboardAccess("no display".to_string())));
    assert_eq!(
        out.unwrap_err().message(),
        "Error while communicating with the operating system clipboard.\nError Details: no display"
    );
    assert_eq!(editor.get_content(), "abc");
    assert!(!editor.is_dirty());
}

#[test]
fn paste_os_text_empty_is_no_op() {
    let (mut editor, app) = loaded("abc", true);
    assert_eq!(editor.paste_os_text(Ok(String::new()), &app), Ok(HandleInputReturnType::Handled));
    assert_eq!(editor.get_content(), "abc");
    assert!(!editor.is_dirty());
    assert!(!editor.buffer().can_undo());
}

#[test]
fn paste_os_text_rejects_text_without_content() {
    let (mut editor, app) = loaded("abc", true);
    let out = editor.paste_os_text(Ok("\r".to_string()), &app);
    assert_eq!(out, Err(EditorError::PasteRejected));
    assert_eq!(out.unwrap_err().message(), "Text can't be pasted into editor");
    assert_eq!(editor.get_content(), "abc");
    assert!(!editor.is_dirty());
}

#[test]
fn paste_os_text_inserts_lines() {
    let (mut editor, app) = loaded("abc", true);
    press(&mut editor, &app, key('h'));
    let out = editor.paste_os_text(Ok("X\r\nY\nZ".to_string()), &app);
    assert_eq!(out, Ok(HandleInputReturnType::Handled));
    assert_eq!(editor.get_content(), "abX\nY\nZc");
    assert_eq!(editor.buffer().cursor(), at(2, 1));
    assert!(editor.has_unsaved());
}

#[test]
fn local_paste_of_empty_register_is_no_op() {
    let (mut editor, app) = loaded("abc", false);
    let request = press(&mut editor, &app, key('p'));
    assert_eq!(request, ClipboardRequest::Nothing);
    assert_eq!(editor.get_content(), "abc");
    assert!(!editor.is_dirty());
    assert!(!editor.buffer().can_undo());
}

#[test]
fn focus_toggle_swaps_entry_box_and_buffer() {
    let (mut editor, app) = loaded("abc", false);
    editor.set_active(true);
    assert!(editor.is_entry_active());
    let (handled, _) = editor.handle_input_prioritized(&plain(KeyCode::BackTab), &app);
    assert_eq!(handled, HandleInputReturnType::NotFound);
    press(&mut editor, &app, plain(KeyCode::BackTab));
    assert!(!editor.is_entry_active());
    assert_eq!(editor.get_editor_mode(), EditorMode::Normal);
    editor.set_editor_mode(EditorMode::Visual);
    press(&mut editor, &app, plain(KeyCode::BackTab));
    assert!(editor.is_entry_active());
    press(&mut editor, &app, key('x'));
    assert_eq!(editor.get_content(), "abc");
    press(&mut editor, &app, plain(KeyCode::BackTab));
    assert!(!editor.is_entry_active());
    assert_eq!(editor.get_editor_mode(), EditorMode::Normal);
    assert!(!editor.buffer().is_selecting());
}

#[test]
fn deactivation_resets_mode_and_focus() {
    let (mut editor, _app) = loaded("abc", false);
    editor.set_active(true);
    assert!(editor.is_active());
    editor.set_editor_mode(EditorMode::Visual);
    editor.set_active(false);
    assert!(!editor.is_active());
    assert!(!editor.is_entry_active());
    assert_eq!(editor.get_editor_mode(), EditorMode::Normal);
    assert!(!editor.buffer().is_selecting());
    editor.set_editor_mode(EditorMode::Insert);
    editor.set_active(false);
    assert_eq!(editor.get_editor_mode(), EditorMode::Normal);
}

#[test]
fn set_entry_content_replaces_text_as_an_edit() {
    let (mut editor, app) = loaded("abc", false);
    editor.set_entry_content("one\ntwo\n", &app);
    assert_eq!(editor.buffer().lines(), vec!["one".to_string(), "two".to_string()]);
    assert_eq!(editor.buffer().cursor(), at(1, 3));
    assert!(editor.is_dirty());
    assert!(editor.has_unsaved());
    press(&mut editor, &app, key('u'));
    assert_eq!(editor.get_content(), "abc");
    assert!(!editor.has_unsaved());
}

#[test]
fn insert_mode_ignores_vim_table_in_general_handler() {
    let (mut editor, app) = loaded("abc", false);
    editor.set_editor_mode(EditorMode::Insert);
    press(&mut editor, &app, key('x'));
    assert_eq!(editor.get_content(), "abc");
    press(&mut editor, &app, plain(KeyCode::Home));
    assert_eq!(editor.buffer().cursor(), at(0, 0));
    assert!(editor.is_insert_mode());
}
