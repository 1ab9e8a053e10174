use kilo_core::buffer::Direction;
use kilo_core::editor::config::{Config, MESSAGE_LIFETIME, QUIT_TIMES};
use kilo_core::editor::dispatch::{dispatch, Action, Command, EditorState};
use kilo_core::editor::output::Output;
use kilo_core::editor::Editor;
use kilo_core::error::EditorError;
use kilo_core::reader::{InputEvent, KeyCode, KeyEvent, Modifier, Modifiers, NavKey, Reader};
use kilo_core::terminal::TerminalMode;
use kilo_core::buffer::DocumentBuffer;
use kilo_core::viewport::Viewport;

const PLAIN: Modifiers = Modifiers {
    shift: false,
    ctrl: false,
    alt: false,
    super_key: false,
    hyper: false,
    meta: false,
};
const SHIFT: Modifiers = Modifiers { shift: true, ..PLAIN };
const CTRL: Modifiers = Modifiers { ctrl: true, ..PLAIN };
const ALT: Modifiers = Modifiers { alt: true, ..PLAIN };

fn e_chars(s: &str) -> Vec<char> {
    s.chars().collect()
}

fn e_string(v: &Vec<char>) -> String {
    v.iter().collect()
}

fn e_lines(lines: &[&str]) -> Vec<Vec<char>> {
    lines.iter().map(|l| e_chars(l)).collect()
}

fn e_key(c: char) -> KeyEvent {
    KeyEvent::Char(c, Modifier::Plain)
}

fn e_press(code: KeyCode, modifiers: Modifiers) -> Result<Option<InputEvent>, EditorError> {
    Ok(Some(InputEvent::Key { code, modifiers }))
}

fn e_type(editor: &mut Editor, text: &str) {
    for c in text.chars() {
        assert_eq!(editor.process_keypress(e_key(c), 0), Action::Continue);
    }
}

fn e_rows(editor: &Editor) -> Vec<String> {
    let buffer = &editor.config().buffer;
    (0..buffer.num_rows()).map(|y| e_string(buffer.row(y).chars())).collect()
}

fn e_cursor(editor: &Editor) -> (usize, usize) {
    (editor.config().buffer.cx(), editor.config().buffer.cy())
}

fn e_message(editor: &Editor) -> String {
    e_string(editor.config().status.text())
}

#[test]
fn read_key_decodes_characters_with_modifiers() {
    let reader = Reader;
    let key = |code, modifiers| reader.read_key(Some(InputEvent::Key { code, modifiers }));
    assert_eq!(key(KeyCode::Char('a'), PLAIN), Some(KeyEvent::Char('a', Modifier::Plain)));
    assert_eq!(key(KeyCode::Char('s'), CTRL), Some(KeyEvent::Char('s', Modifier::Ctrl)));
    assert_eq!(key(KeyCode::Char('x'), ALT), Some(KeyEvent::Char('x', Modifier::Alt)));
    assert_eq!(key(KeyCode::Char('A'), SHIFT), Some(KeyEvent::Char('A', Modifier::Shift)));
    assert_eq!(
        key(KeyCode::Char('S'), Modifiers { shift: true, ..CTRL }),
        Some(KeyEvent::Char('S', Modifier::Ctrl))
    );
    assert_eq!(
        key(KeyCode::Char('x'), Modifiers { alt: true, ..CTRL }),
        Some(KeyEvent::Unrecognized)
    );
    assert_eq!(
        key(KeyCode::Char('x'), Modifiers { super_key: true, ..PLAIN }),
        Some(KeyEvent::Unrecognized)
    );
    assert_eq!(
        key(KeyCode::Char('x'), Modifiers { hyper: true, ..SHIFT }),
        Some(KeyEvent::Unrecognized)
    );
    assert_eq!(
        key(KeyCode::Char('x'), Modifiers { meta: true, ..CTRL }),
        Some(KeyEvent::Unrecognized)
    );
    assert_eq!(key(KeyCode::Enter, PLAIN), Some(KeyEvent::Char('\r', Modifier::Plain)));
    assert_eq!(key(KeyCode::Backspace, PLAIN), Some(KeyEvent::Char('\u{7f}', Modifier::Plain)));
    assert_eq!(key(KeyCode::Tab, PLAIN), Some(KeyEvent::Char('\t', Modifier::Plain)));
    assert_eq!(key(KeyCode::Esc, PLAIN), Some(KeyEvent::Char('\u{1b}', Modifier::Plain)));
    assert_eq!(key(KeyCode::Enter, ALT), Some(KeyEvent::Char('\r', Modifier::Alt)));
}

#[test]
fn read_key_decodes_arrows_and_navigation() {
    let reader = Reader;
    let key = |code| reader.read_key(Some(InputEvent::Key { code, modifiers: PLAIN }));
    assert_eq!(key(KeyCode::Up), Some(KeyEvent::Arrow(Direction::Up)));
    assert_eq!(key(KeyCode::Down), Some(KeyEvent::Arrow(Direction::Down)));
    assert_eq!(key(KeyCode::Left), Some(KeyEvent::Arrow(Direction::Left)));
    assert_eq!(key(KeyCode::Right), Some(KeyEvent::Arrow(Direction::Right)));
    assert_eq!(key(KeyCode::Home), Some(KeyEvent::Nav(NavKey::Home)));
    assert_eq!(key(KeyCode::End), Some(KeyEvent::Nav(NavKey::End)));
    assert_eq!(key(KeyCode::PageUp), Some(KeyEvent::Nav(NavKey::PageUp)));
    assert_eq!(key(KeyCode::PageDown), Some(KeyEvent::Nav(NavKey::PageDown)));
    assert_eq!(key(KeyCode::Delete), Some(KeyEvent::Nav(NavKey::Delete)));
    assert_eq!(key(KeyCode::Other), Some(KeyEvent::Unrecognized));
    assert_eq!(
        reader.read_key(Some(InputEvent::Key { code: KeyCode::Up, modifiers: CTRL })),
        Some(KeyEvent::Arrow(Direction::Up))
    );
}

#[test]
fn read_key_returns_nothing_without_a_key() {
    let reader = Reader;
    assert_eq!(reader.read_key(None), None);
    assert_eq!(reader.read_key(Some(InputEvent::Other)), None);
}

#[test]
fn dispatch_maps_each_key_to_one_command() {
    assert_eq!(dispatch(e_key('q')), Command::Quit);
    assert_eq!(dispatch(e_key('Q')), Command::Insert('Q'));
    assert_eq!(dispatch(KeyEvent::Char('q', Modifier::Shift)), Command::Insert('q'));
    assert_eq!(dispatch(KeyEvent::Char('Q', Modifier::Shift)), Command::Insert('Q'));
    assert_eq!(dispatch(KeyEvent::Char('\r', Modifier::Shift)), Command::Newline);
    assert_eq!(dispatch(KeyEvent::Char('\u{7f}', Modifier::Shift)), Command::DeleteBack);
    assert_eq!(dispatch(KeyEvent::Char('\u{1b}', Modifier::Shift)), Command::Unknown);
    assert_eq!(dispatch(e_key('a')), Command::Insert('a'));
    assert_eq!(dispatch(e_key('\t')), Command::Insert('\t'));
    assert_eq!(dispatch(e_key('\r')), Command::Newline);
    assert_eq!(dispatch(e_key('\u{7f}')), Command::DeleteBack);
    assert_eq!(dispatch(e_key('\u{1b}')), Command::Unknown);
    assert_eq!(dispatch(KeyEvent::Char('s', Modifier::Ctrl)), Command::Save);
    assert_eq!(dispatch(KeyEvent::Char('h', Modifier::Ctrl)), Command::DeleteBack);
    assert_eq!(dispatch(KeyEvent::Char('q', Modifier::Ctrl)), Command::Unknown);
    assert_eq!(dispatch(KeyEvent::Char('q', Modifier::Alt)), Command::Unknown);
    assert_eq!(dispatch(KeyEvent::Arrow(Direction::Left)), Command::Move(Direction::Left));
    assert_eq!(dispatch(KeyEvent::Nav(NavKey::Home)), Command::Home);
    assert_eq!(dispatch(KeyEvent::Nav(NavKey::End)), Command::End);
    assert_eq!(dispatch(KeyEvent::Nav(NavKey::PageUp)), Command::PageUp);
    assert_eq!(dispatch(KeyEvent::Nav(NavKey::PageDown)), Command::PageDown);
    assert_eq!(dispatch(KeyEvent::Nav(NavKey::Delete)), Command::DeleteForward);
    assert_eq!(dispatch(KeyEvent::Unrecognized), Command::Unknown);
}

#[test]
fn new_editor_is_running_on_an_empty_line() {
    let editor = Editor::new();
    assert_eq!(editor.state(), EditorState::Running);
    assert_eq!(editor.mode(), TerminalMode::Normal);
    assert_eq!(e_rows(&editor), vec![String::new()]);
    assert_eq!(e_cursor(&editor), (0, 0));
    let config = editor.config();
    assert_eq!((config.viewport.screencols(), config.viewport.screenrows()), (80, 22));
    assert_eq!((config.quit_times, config.message_lifetime), (QUIT_TIMES, MESSAGE_LIFETIME));
    assert_eq!((QUIT_TIMES, MESSAGE_LIFETIME), (3, 5));
    assert_eq!(e_message(&editor), "");
    assert_eq!(e_string(&editor.content()), "");
}

#[test]
fn raw_mode_is_restored_once() {
    let mut editor = Editor::new();
    assert!(!editor.disable_raw_mode());
    assert_eq!(editor.enable_raw_mode(false), Err(EditorError::Terminal));
    assert_eq!(editor.mode(), TerminalMode::Normal);
    assert_eq!(editor.enable_raw_mode(true), Ok(()));
    assert_eq!(editor.mode(), TerminalMode::Raw);
    assert!(editor.disable_raw_mode());
    assert_eq!(editor.mode(), TerminalMode::Normal);
    assert!(!editor.disable_raw_mode());
    assert_eq!(editor.mode(), TerminalMode::Normal);
}

#[test]
fn load_then_save_reproduces_the_file() {
    let on_disk = "first line\nsecond\tline\nthird";
    let mut editor = Editor::new();
    editor.open(&kilo_core::text::split_lines(&e_chars(on_disk)), Some(e_chars("f.txt")));
    assert_eq!(e_rows(&editor), vec!["first line", "second\tline", "third"]);
    assert_eq!(editor.run(e_press(KeyCode::Char('s'), CTRL), 1), Ok(Action::Save));
    assert_eq!(e_string(&editor.content()), on_disk);
    let with_newline = "a\nb\nc\n";
    editor.open(&kilo_core::text::split_lines(&e_chars(with_newline)), Some(e_chars("f.txt")));
    assert_eq!(e_string(&editor.content()), with_newline);
    assert_eq!(editor.config().buffer.dirty(), 0);
}

#[test]
fn typing_edits_the_document() {
    let mut editor = Editor::new();
    e_type(&mut editor, "helo");
    editor.process_keypress(KeyEvent::Arrow(Direction::Left), 0);
    e_type(&mut editor, "l");
    editor.process_keypress(KeyEvent::Nav(NavKey::End), 0);
    editor.process_keypress(e_key('\r'), 0);
    e_type(&mut editor, "wx");
    editor.process_keypress(e_key('\u{7f}'), 0);
    editor.process_keypress(KeyEvent::Char('h', Modifier::Ctrl), 0);
    e_type(&mut editor, "world");
    assert_eq!(e_rows(&editor), vec!["hello", "world"]);
    assert_eq!(e_cursor(&editor), (5, 1));
    editor.process_keypress(KeyEvent::Nav(NavKey::Home), 0);
    assert_eq!(e_cursor(&editor), (0, 1));
    editor.process_keypress(KeyEvent::Nav(NavKey::Delete), 0);
    assert_eq!(e_rows(&editor), vec!["hello", "orld"]);
    editor.process_keypress(e_key('\u{7f}'), 0);
    assert_eq!(e_rows(&editor), vec!["helloorld"]);
    assert_eq!(e_cursor(&editor), (5, 0));
    assert_eq!(e_string(&editor.content()), "helloorld");
    assert_eq!(editor.state(), EditorState::Running);
}

#[test]
fn page_keys_move_by_the_height_of_the_window() {
    let lines: Vec<String> = (0..100).map(|i| format!("{}", i)).collect();
    let refs: Vec<&str> = lines.iter().map(|l| l.as_str()).collect();
    let mut editor = Editor::new();
    assert!(editor.resize(20, 12));
    editor.open(&e_lines(&refs), None);
    editor.process_keypress(KeyEvent::Nav(NavKey::End), 0);
    assert_eq!(e_cursor(&editor), (1, 0));
    editor.process_keypress(KeyEvent::Nav(NavKey::PageDown), 0);
    assert_eq!(e_cursor(&editor), (1, 10));
    assert_eq!(editor.config().viewport.rowoff(), 1);
    editor.process_keypress(KeyEvent::Nav(NavKey::PageDown), 0);
    editor.process_keypress(KeyEvent::Nav(NavKey::PageDown), 0);
    assert_eq!(e_cursor(&editor), (1, 30));
    assert_eq!(editor.config().viewport.rowoff(), 21);
    editor.process_keypress(KeyEvent::Nav(NavKey::PageUp), 0);
    assert_eq!(e_cursor(&editor), (1, 20));
    assert_eq!(editor.config().viewport.rowoff(), 20);
    for _ in 0..5 {
        editor.process_keypress(KeyEvent::Nav(NavKey::PageUp), 0);
    }
    assert_eq!(e_cursor(&editor), (1, 0));
    for _ in 0..12 {
        editor.process_keypress(KeyEvent::Nav(NavKey::PageDown), 0);
    }
    assert_eq!(e_cursor(&editor), (0, 100));
    assert_eq!(editor.config().viewport.rowoff(), 91);
    assert_eq!(editor.config().buffer.dirty(), 0);
}

#[test]
fn only_q_without_modifiers_quits() {
    let held = [false, true];
    for shift in held {
        for ctrl in held {
            for alt in held {
                for super_key in held {
                    for hyper in held {
                        for meta in held {
                            let modifiers = Modifiers { shift, ctrl, alt, super_key, hyper, meta };
                            let mut editor = Editor::new();
                            let result = editor.run(e_press(KeyCode::Char('q'), modifiers), 0);
                            if modifiers == PLAIN {
                                assert_eq!(result, Ok(Action::Quit));
                                assert_eq!(editor.state(), EditorState::Terminated);
                            } else {
                                assert_eq!(result, Ok(Action::Continue));
                                assert_eq!(editor.state(), EditorState::Running);
                            }
                        }
                    }
                }
            }
        }
    }
    let mut editor = Editor::new();
    assert_eq!(editor.run(e_press(KeyCode::Char('q'), SHIFT), 0), Ok(Action::Continue));
    assert_eq!(e_rows(&editor), vec!["q"]);
    assert_eq!(editor.run(e_press(KeyCode::Char('Q'), SHIFT), 0), Ok(Action::Continue));
    assert_eq!(e_rows(&editor), vec!["qQ"]);
}

#[test]
fn quit_times_can_be_set() {
    let mut editor = Editor::new();
    editor.set_quit_times(1);
    assert_eq!(editor.config().quit_times, 1);
    e_type(&mut editor, "x");
    assert_eq!(editor.process_keypress(e_key('q'), 0), Action::Continue);
    assert_eq!(editor.state(), EditorState::ConfirmQuit(1));
    assert_eq!(editor.process_keypress(e_key('q'), 0), Action::Quit);
    let mut editor = Editor::new();
    editor.set_quit_times(0);
    e_type(&mut editor, "x");
    assert_eq!(editor.process_keypress(e_key('q'), 0), Action::Quit);
    assert_eq!(editor.state(), EditorState::Terminated);
    assert_eq!(e_rows(&editor), vec!["x"]);
}

#[test]
fn message_lifetime_can_be_set() {
    let mut editor = Editor::new();
    assert!(editor.resize(20, 3));
    editor.set_message_lifetime(2);
    assert_eq!(editor.config().message_lifetime, 2);
    editor.process_keypress(KeyEvent::Unrecognized, 10);
    let shown = |frame: Vec<char>| e_string(&frame).contains("Unrecognized key");
    assert!(shown(editor.refresh_screen(11)));
    assert!(!shown(editor.refresh_screen(12)));
    editor.set_message_lifetime(0);
    assert!(!shown(editor.refresh_screen(10)));
}

#[test]
fn quit_without_changes_is_immediate() {
    let mut editor = Editor::new();
    assert_eq!(editor.process_keypress(e_key('q'), 0), Action::Quit);
    assert_eq!(editor.state(), EditorState::Terminated);
    assert_eq!(editor.process_keypress(e_key('a'), 0), Action::Quit);
    assert_eq!(editor.state(), EditorState::Terminated);
    assert_eq!(e_rows(&editor), vec![String::new()]);
    assert_eq!(editor.run(Ok(None), 0), Ok(Action::Quit));
}

#[test]
fn quit_with_unsaved_changes_needs_repeated_presses() {
    let mut editor = Editor::new();
    e_type(&mut editor, "x");
    assert_eq!(editor.process_keypress(e_key('q'), 7), Action::Continue);
    assert_eq!(editor.state(), EditorState::ConfirmQuit(3));
    assert_eq!(e_message(&editor), "Unsaved changes. Press q 3 more times to quit.");
    assert_eq!(editor.process_keypress(e_key('q'), 7), Action::Continue);
    assert_eq!(editor.state(), EditorState::ConfirmQuit(2));
    assert_eq!(e_message(&editor), "Unsaved changes. Press q 2 more times to quit.");
    assert_eq!(editor.run(Ok(None), 8), Ok(Action::Continue));
    assert_eq!(editor.run(Ok(Some(InputEvent::Other)), 8), Ok(Action::Continue));
    assert_eq!(editor.state(), EditorState::ConfirmQuit(2));
    assert_eq!(editor.process_keypress(e_key('q'), 8), Action::Continue);
    assert_eq!(editor.state(), EditorState::ConfirmQuit(1));
    assert_eq!(e_message(&editor), "Unsaved changes. Press q 1 more times to quit.");
    assert_eq!(editor.process_keypress(e_key('q'), 8), Action::Quit);
    assert_eq!(editor.state(), EditorState::Terminated);
    assert_eq!(e_rows(&editor), vec!["x"]);
}

#[test]
fn other_key_resets_the_quit_counter() {
    let mut editor = Editor::new();
    e_type(&mut editor, "x");
    editor.process_keypress(e_key('q'), 0);
    editor.process_keypress(e_key('q'), 0);
    editor.process_keypress(e_key('q'), 0);
    assert_eq!(editor.state(), EditorState::ConfirmQuit(1));
    assert_eq!(editor.process_keypress(KeyEvent::Arrow(Direction::Left), 0), Action::Continue);
    assert_eq!(editor.state(), EditorState::Running);
    for left in [3u32, 2, 1] {
        assert_eq!(editor.process_keypress(e_key('q'), 0), Action::Continue);
        assert_eq!(editor.state(), EditorState::ConfirmQuit(left));
    }
    assert_eq!(editor.process_keypress(KeyEvent::Unrecognized, 0), Action::Continue);
    assert_eq!(editor.state(), EditorState::Running);
    for _ in 0..3 {
        assert_eq!(editor.process_keypress(e_key('q'), 0), Action::Continue);
    }
    assert_eq!(editor.process_keypress(e_key('q'), 0), Action::Quit);
    assert_eq!(editor.state(), EditorState::Terminated);
}

#[test]
fn state_next_follows_the_configured_count() {
    let running = EditorState::Running;
    assert_eq!(running.next(Command::Quit, true, 0), EditorState::Terminated);
    assert_eq!(running.next(Command::Quit, true, 1), EditorState::ConfirmQuit(1));
    assert_eq!(running.next(Command::Quit, false, 5), EditorState::Terminated);
    assert_eq!(running.next(Command::Insert('a'), true, 5), EditorState::Running);
    assert_eq!(EditorState::ConfirmQuit(1).next(Command::Quit, true, 5), EditorState::Terminated);
    assert_eq!(
        EditorState::ConfirmQuit(4).next(Command::Quit, true, 5),
        EditorState::ConfirmQuit(3)
    );
    assert_eq!(EditorState::ConfirmQuit(4).next(Command::Save, true, 5), EditorState::Running);
    assert_eq!(EditorState::Terminated.next(Command::Save, true, 5), EditorState::Terminated);
    assert!(EditorState::Terminated.is_terminated());
    assert!(!EditorState::ConfirmQuit(1).is_terminated());
}

#[test]
fn unrecognized_key_leaves_a_message() {
    let mut editor = Editor::new();
    e_type(&mut editor, "ab");
    assert_eq!(editor.run(e_press(KeyCode::Other, PLAIN), 42), Ok(Action::Continue));
    assert_eq!(e_message(&editor), "Unrecognized key");
    assert!(editor.config().status.live(46, editor.config().message_lifetime));
    assert!(!editor.config().status.live(47, editor.config().message_lifetime));
    assert_eq!(e_rows(&editor), vec!["ab"]);
    assert_eq!(editor.config().buffer.dirty(), 2);
}

#[test]
fn save_asks_the_driver_and_clears_dirty() {
    let mut editor = Editor::new();
    editor.open(&e_lines(&["ab"]), Some(e_chars("out.txt")));
    e_type(&mut editor, "x");
    assert_eq!(editor.config().buffer.dirty(), 1);
    assert_eq!(editor.run(e_press(KeyCode::Char('s'), CTRL), 3), Ok(Action::Save));
    assert_eq!(e_string(&editor.content()), "xab");
    assert_eq!(editor.config().buffer.dirty(), 1);
    editor.save_finished(Some(3), 4);
    assert_eq!(editor.config().buffer.dirty(), 0);
    assert_eq!(e_message(&editor), "3 characters written");
    assert_eq!(editor.process_keypress(e_key('q'), 5), Action::Quit);
}

#[test]
fn failed_save_keeps_the_changes_unsaved() {
    let mut editor = Editor::new();
    editor.open(&e_lines(&["ab"]), Some(e_chars("out.txt")));
    e_type(&mut editor, "x");
    assert_eq!(editor.process_keypress(KeyEvent::Char('s', Modifier::Ctrl), 3), Action::Save);
    editor.save_finished(None, 4);
    assert_eq!(editor.config().buffer.dirty(), 1);
    assert_eq!(e_message(&editor), "Can't save! I/O error");
    assert_eq!(editor.process_keypress(e_key('q'), 5), Action::Continue);
}

#[test]
fn save_without_a_file_name_leaves_a_message() {
    let mut editor = Editor::new();
    e_type(&mut editor, "x");
    assert_eq!(editor.process_keypress(KeyEvent::Char('s', Modifier::Ctrl), 3), Action::Continue);
    assert_eq!(e_message(&editor), "No file name");
    assert_eq!(editor.config().buffer.dirty(), 1);
}

#[test]
fn failed_poll_ends_the_editor_with_its_error() {
    let mut editor = Editor::new();
    assert_eq!(editor.enable_raw_mode(true), Ok(()));
    e_type(&mut editor, "x");
    assert_eq!(editor.run(Err(EditorError::Io), 0), Err(EditorError::Io));
    assert_eq!(editor.state(), EditorState::Terminated);
    assert!(editor.disable_raw_mode());
    let mut editor = Editor::new();
    assert_eq!(editor.run(Err(EditorError::Terminal), 0), Err(EditorError::Terminal));
    assert_eq!(editor.state(), EditorState::Terminated);
}

#[test]
fn clear_screen_clears_and_homes() {
    assert_eq!(e_string(&Output::clear_screen()), "\u{1b}[2J\u{1b}[1;1H");
}

#[test]
fn refresh_screen_composes_the_frame() {
    let mut editor = Editor::new();
    assert!(editor.resize(30, 5));
    editor.open(&e_lines(&["hi", "a\tb"]), Some(e_chars("f.txt")));
    let expected = [
        "\u{1b}[?25l",
        "\u{1b}[2J\u{1b}[1;1H",
        "hi                            \r\n",
        "a       b                     \r\n",
        "~                             \r\n",
        "f.txt - 2 lines            1/2\r\n",
        "                              ",
        "\u{1b}[1;1H",
        "\u{1b}[?25h",
    ]
    .concat();
    assert_eq!(e_string(&editor.refresh_screen(0)), expected);
}

#[test]
fn refresh_screen_places_the_cursor_and_shows_the_message() {
    let mut editor = Editor::new();
    assert!(editor.resize(30, 5));
    editor.open(&e_lines(&["hi", "a\tb"]), None);
    editor.process_keypress(KeyEvent::Arrow(Direction::Down), 0);
    editor.process_keypress(KeyEvent::Nav(NavKey::End), 0);
    e_type(&mut editor, "!");
    editor.process_keypress(KeyEvent::Unrecognized, 10);
    let frame = |message: &str| {
        [
            "\u{1b}[?25l",
            "\u{1b}[2J\u{1b}[1;1H",
            "hi                            \r\n",
            "a       b!                    \r\n",
            "~                             \r\n",
            "[No Name] - 2 lines (modified)\r\n",
            message,
            "\u{1b}[2;11H",
            "\u{1b}[?25h",
        ]
        .concat()
    };
    assert_eq!(e_string(&editor.refresh_screen(14)), frame("Unrecognized key              "));
    assert_eq!(e_string(&editor.refresh_screen(15)), frame("                              "));
}

#[test]
fn refresh_screen_shows_the_window_after_scrolling() {
    let lines: Vec<String> = (0..12).map(|i| format!("{:02}-abcdefghijklmnop", i)).collect();
    let refs: Vec<&str> = lines.iter().map(|l| l.as_str()).collect();
    let mut editor = Editor::new();
    assert!(editor.resize(8, 4));
    editor.open(&e_lines(&refs), Some(e_chars("a-very-long-file-name-indeed.txt")));
    for _ in 0..11 {
        editor.process_keypress(KeyEvent::Arrow(Direction::Down), 0);
    }
    for _ in 0..10 {
        editor.process_keypress(KeyEvent::Arrow(Direction::Right), 0);
    }
    assert_eq!(e_cursor(&editor), (10, 11));
    let config = editor.config();
    assert_eq!((config.viewport.rowoff(), config.viewport.coloff()), (10, 3));
    let expected = [
        "\u{1b}[?25l",
        "\u{1b}[2J\u{1b}[1;1H",
        "abcdefgh\r\n",
        "abcdefgh\r\n",
        "a-very-l\r\n",
        "        ",
        "\u{1b}[2;8H",
        "\u{1b}[?25h",
    ]
    .concat();
    assert_eq!(e_string(&editor.refresh_screen(0)), expected);
}

#[test]
fn status_bar_drops_the_right_part_without_room() {
    let output = Output::new();
    let lines = e_lines(&["x"]);
    let buffer = DocumentBuffer::from_lines(&lines, Some(e_chars("a-very-long-file-name-indeed.txt")));
    let config = Config::new(buffer, Viewport::new(36, 3).unwrap());
    let mut bar = Vec::new();
    output.draw_status_bar(&config, &mut bar);
    assert_eq!(e_string(&bar), "a-very-long-file-nam - 1 lines   1/1");
    let buffer = DocumentBuffer::from_lines(&lines, Some(e_chars("a-very-long-file-name-indeed.txt")));
    let config = Config::new(buffer, Viewport::new(32, 3).unwrap());
    let mut bar = e_chars(">");
    output.draw_status_bar(&config, &mut bar);
    assert_eq!(e_string(&bar), ">a-very-long-file-nam - 1 lines  ");
}

#[test]
fn draw_rows_and_message_bar_fill_the_window() {
    let output = Output::new();
    let lines = e_lines(&["0123456789", "\t\tx"]);
    let mut config = Config::new(DocumentBuffer::from_lines(&lines, None), Viewport::new(4, 5).unwrap());
    let mut rows = e_chars("|");
    output.draw_rows(&config, &mut rows);
    assert_eq!(e_string(&rows), "|0123\r\n    \r\n~   \r\n");
    config.status.set(e_chars("too long a message"), 1);
    let mut bar = Vec::new();
    output.draw_message_bar(&config, 2, &mut bar);
    assert_eq!(e_string(&bar), "too ");
    let mut bar = Vec::new();
    output.draw_message_bar(&config, 6, &mut bar);
    assert_eq!(e_string(&bar), "    ");
}
