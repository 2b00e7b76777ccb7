use filenav::app::{Action, App, Mode};
use filenav::events::{KeyCode, KeyInput};
use filenav::snapshot::{FileEntry, FileManager};

fn entry(name: &str, path: &str, is_file: bool) -> FileEntry {
    FileEntry { name: name.to_string(), path: path.to_string(), is_file, size: 0 }
}

fn key(code: KeyCode) -> KeyInput {
    KeyInput { code, ctrl: false }
}

fn app_with(listing: Vec<FileEntry>, parent: Option<&str>) -> App {
    let fm = FileManager::new("/tmp".to_string(), parent.map(|p| p.to_string()), listing);
    App::new(fm, "/tmp".to_string(), 0)
}

#[test]
fn selection_moves_wrap_and_invert() {
    let mut app = app_with(
        vec![entry("a", "/tmp/a", true), entry("b", "/tmp/b", true), entry("c", "/tmp/c", true)],
        None,
    );
    assert_eq!(app.selected_index, 0);
    app.move_selection(1);
    assert_eq!(app.selected_index, 1);
    app.move_selection(-1);
    assert_eq!(app.selected_index, 0);
    // wrap backwards from the top, then forwards past the end
    app.move_selection(-1);
    assert_eq!(app.selected_index, 2);
    app.move_selection(1);
    assert_eq!(app.selected_index, 0);
    // +1 then -1 from every index returns to it
    for start in 0..3 {
        app.selected_index = start;
        app.move_selection(1);
        app.move_selection(-1);
        assert_eq!(app.selected_index, start);
    }
}

#[test]
fn selection_move_on_empty_snapshot_is_noop() {
    let mut app = app_with(vec![], None);
    assert_eq!(app.selected_index, 0);
    app.move_selection(1);
    assert_eq!(app.selected_index, 0);
    app.move_selection(-1);
    assert_eq!(app.selected_index, 0);
    app.move_selection(-42);
    assert_eq!(app.selected_index, 0);
}

#[test]
fn large_deltas_wrap_circularly() {
    let mut app = app_with(
        vec![entry("a", "/tmp/a", true), entry("b", "/tmp/b", true), entry("c", "/tmp/c", true)],
        None,
    );
    app.move_selection(7); // 7 mod 3 == 1
    assert_eq!(app.selected_index, 1);
    app.move_selection(-5); // 1 - 5 == -4, mod 3 == 2
    assert_eq!(app.selected_index, 2);
}

#[test]
fn normal_mode_enters_insert_command_visual() {
    for (c, mode) in [('i', Mode::Insert), (':', Mode::Command), ('v', Mode::Visual)] {
        let mut app = app_with(vec![entry("a", "/tmp/a", true)], None);
        let action = app.handle_key_event(key(KeyCode::Char(c)));
        assert_eq!(action, Action::Idle);
        assert_eq!(app.mode, mode);
        assert_eq!(app.selected_index, 0);
        assert_eq!(app.command_buffer, "");
        assert_eq!(app.current_path, "/tmp");
    }
}

#[test]
fn ctrl_q_quits_plain_q_does_not() {
    let mut app = app_with(vec![], None);
    let action = app.handle_key_event(KeyInput { code: KeyCode::Char('q'), ctrl: true });
    assert_eq!(action, Action::Quit);
    let action = app.handle_key_event(key(KeyCode::Char('q')));
    assert_eq!(action, Action::Idle);
}

#[test]
fn escape_returns_to_normal_from_every_mode() {
    for mode in [Mode::Insert, Mode::Command, Mode::Visual] {
        let mut app = app_with(vec![], None);
        app.mode = mode;
        let action = app.handle_key_event(key(KeyCode::Esc));
        assert_eq!(action, Action::Idle);
        assert_eq!(app.mode, Mode::Normal);
        assert_eq!(app.command_buffer, "");
    }
}

#[test]
fn command_buffer_accumulates_and_executes() {
    let mut app = app_with(vec![], None);
    app.handle_key_event(key(KeyCode::Char(':')));
    assert_eq!(app.mode, Mode::Command);
    app.handle_key_event(key(KeyCode::Char('l')));
    app.handle_key_event(key(KeyCode::Char('s')));
    assert_eq!(app.command_buffer, "ls");
    let action = app.handle_key_event(key(KeyCode::Enter));
    assert_eq!(action, Action::Execute("ls".to_string()));
    assert_eq!(app.mode, Mode::Normal);
    assert_eq!(app.command_buffer, "");
}

#[test]
fn escape_abandons_command_buffer() {
    let mut app = app_with(vec![], None);
    app.handle_key_event(key(KeyCode::Char(':')));
    app.handle_key_event(key(KeyCode::Char('x')));
    assert_eq!(app.command_buffer, "x");
    let action = app.handle_key_event(key(KeyCode::Esc));
    assert_eq!(action, Action::Idle);
    assert_eq!(app.mode, Mode::Normal);
    assert_eq!(app.command_buffer, "");
}

#[test]
fn delegated_operations_become_actions() {
    let cases = [
        ('d', Action::Delete),
        ('e', Action::Edit),
        ('r', Action::Rename),
        ('n', Action::Create),
    ];
    for (c, expected) in cases {
        let mut app = app_with(vec![entry("a", "/tmp/a", true)], None);
        let action = app.handle_key_event(key(KeyCode::Char(c)));
        assert_eq!(action, expected);
        assert_eq!(app.mode, Mode::Normal);
    }
}

#[test]
fn left_asks_for_parent_navigation() {
    let mut app = app_with(vec![], Some("/"));
    let action = app.handle_key_event(key(KeyCode::Char('h')));
    assert_eq!(action, Action::NavigateParent);
    let action = app.handle_key_event(key(KeyCode::Left));
    assert_eq!(action, Action::NavigateParent);
}

#[test]
fn entering_a_file_is_a_noop() {
    let mut app = app_with(vec![entry("a.txt", "/tmp/a.txt", true)], None);
    let action = app.handle_key_event(key(KeyCode::Enter));
    assert_eq!(action, Action::Idle);
    assert_eq!(app.current_path, "/tmp");
}

#[test]
fn unrecognized_keys_are_noops_in_normal_mode() {
    let mut app = app_with(vec![entry("a", "/tmp/a", true)], None);
    for code in [KeyCode::Char('z'), KeyCode::Other, KeyCode::Esc] {
        let action = app.handle_key_event(key(code));
        assert_eq!(action, Action::Idle);
        assert_eq!(app.mode, Mode::Normal);
        assert_eq!(app.selected_index, 0);
        assert_eq!(app.command_buffer, "");
    }
}

#[test]
fn error_message_set_and_cleared() {
    let mut app = app_with(vec![], None);
    assert!(app.error_message.is_none());
    app.set_error("delete failed".to_string());
    assert_eq!(app.error_message.as_deref(), Some("delete failed"));
    app.clear_error();
    assert!(app.error_message.is_none());
}

#[test]
fn end_to_end_navigation_scenario() {
    // /tmp holds a.txt (file) and sub (directory); a parent exists.
    let mut app = app_with(
        vec![entry("a.txt", "/tmp/a.txt", true), entry("sub", "/tmp/sub", false)],
        Some("/"),
    );
    let names: Vec<&str> = app.file_manager.entries.iter().map(|e| e.name.as_str()).collect();
    assert_eq!(names, vec!["..", "sub", "a.txt"]);
    assert_eq!(app.selected_index, 0);

    let action = app.handle_key_event(key(KeyCode::Down));
    assert_eq!(action, Action::Idle);
    assert_eq!(app.selected_index, 1);
    assert_eq!(app.file_manager.entries[app.selected_index].name, "sub");

    let action = app.handle_key_event(key(KeyCode::Right));
    assert_eq!(action, Action::Navigate("/tmp/sub".to_string()));

    // The shell rebuilds the snapshot for the target and reports back.
    let fm = FileManager::new(
        "/tmp/sub".to_string(),
        Some("/tmp".to_string()),
        vec![entry("inner.txt", "/tmp/sub/inner.txt", true)],
    );
    app.apply_navigation("/tmp/sub".to_string(), fm);
    assert_eq!(app.current_path, "/tmp/sub");
    assert_eq!(app.selected_index, 0);
    let names: Vec<&str> = app.file_manager.entries.iter().map(|e| e.name.as_str()).collect();
    assert_eq!(names, vec!["..", "inner.txt"]);
}
