use look::command::{dispatch_outcome, working_dir, DispatchOutcome};
use look::navigator::{Action, App, Key, Mode};
use look::walker::NavigationDataFeild;

fn rec(path: &str, start: usize, end: usize) -> NavigationDataFeild {
    NavigationDataFeild { path: path.to_string(), start, end }
}

fn app_of(n: usize) -> App {
    App::new((0..n).map(|i| rec(&format!("f{}", i), 0, 1)).collect())
}

fn type_text(app: &mut App, text: &str) {
    for c in text.chars() {
        app.handle_key(Key::Char(c));
    }
}

fn command_app() -> App {
    let mut app = App::new(vec![rec("/tmp/a.txt", 5, 6), rec("/tmp/sub", 5, 6)]);
    app.handle_key(Key::Char(':'));
    app
}

#[test]
fn new_app_selects_first() {
    let app = app_of(3);
    assert_eq!(app.selected, Some(0));
    assert_eq!(app.mode, Mode::Selection);
    assert!(!app.exit);
    assert_eq!(app_of(0).selected, None);
}

#[test]
fn down_k_then_up_k() {
    for (n, k) in [(3usize, 5usize), (3, 1), (1, 4), (5, 4), (4, 0)] {
        let mut app = app_of(n);
        for _ in 0..k {
            app.handle_key(Key::Down);
        }
        assert_eq!(app.selected, Some(k.min(n - 1)));
        for _ in 0..k {
            app.handle_key(Key::Up);
        }
        assert_eq!(app.selected, Some(0));
    }
}

#[test]
fn selection_mode_ignores_other_keys() {
    let mut app = app_of(2);
    app.handle_key(Key::Char('x'));
    app.handle_key(Key::Left);
    app.handle_key(Key::Enter);
    assert!(app.input.content.is_empty());
    assert_eq!(app.mode, Mode::Selection);
    assert_eq!(app.selected, Some(0));
}

#[test]
fn colon_enters_command_mode() {
    let mut app = app_of(2);
    app.handle_key(Key::Char(':'));
    assert_eq!(app.mode, Mode::Command);
    assert!(app.input.content.is_empty());
    assert_eq!(app.input.cursor, 0);
    app.handle_key(Key::Down);
    assert_eq!(app.selected, Some(0));
    app.handle_key(Key::Char(':'));
    assert_eq!(app.input.content, vec![':']);
}

#[test]
fn insert_ab_then_backspace() {
    let mut app = command_app();
    type_text(&mut app, "ab");
    app.handle_key(Key::Backspace);
    assert_eq!(app.input.content, vec!['a']);
    assert_eq!(app.input.cursor, 1);
}

#[test]
fn cursor_moves_and_edits() {
    let mut app = command_app();
    type_text(&mut app, "abc");
    app.handle_key(Key::Right);
    assert_eq!(app.input.cursor, 3);
    app.handle_key(Key::Left);
    app.handle_key(Key::Left);
    assert_eq!(app.input.cursor, 1);
    app.handle_key(Key::Delete);
    assert_eq!(app.input.content, vec!['a', 'c']);
    app.handle_key(Key::Char('x'));
    assert_eq!(app.input.content, vec!['a', 'x', 'c']);
    assert_eq!(app.input.cursor, 2);
    for _ in 0..5 {
        app.handle_key(Key::Left);
    }
    assert_eq!(app.input.cursor, 0);
    app.handle_key(Key::Backspace);
    assert_eq!(app.input.content, vec!['a', 'x', 'c']);
    app.handle_key(Key::Right);
    app.handle_key(Key::Right);
    app.handle_key(Key::Right);
    app.handle_key(Key::Delete);
    assert_eq!(app.input.content, vec!['a', 'x', 'c']);
}

#[test]
fn quit_sets_exit_and_keeps_output() {
    let mut app = command_app();
    app.input.stdout_result = Some("earlier".to_string());
    type_text(&mut app, "quit");
    let a = app.handle_key(Key::Enter);
    assert!(matches!(a, Action::Nothing));
    assert!(app.exit);
    assert_eq!(app.input.stdout_result, Some("earlier".to_string()));
    assert!(app.input.content.is_empty());
}

#[test]
fn unknown_command_changes_only_input() {
    let mut app = command_app();
    app.handle_key(Key::Down);
    type_text(&mut app, "ls");
    let a = app.handle_key(Key::Enter);
    assert!(matches!(a, Action::Nothing));
    assert!(!app.exit);
    assert_eq!(app.mode, Mode::Command);
    assert_eq!(app.selected, Some(0));
    assert_eq!(app.input.stdout_result, None);
    assert!(app.input.content.is_empty());
    assert_eq!(app.input.cursor, 0);
    assert!(app.input.show_stdout_result);
    assert_eq!(app.field.len(), 2);
}

#[test]
fn code_requests_editor_on_selected_path() {
    let mut app = App::new(vec![rec("/tmp/a.txt", 5, 6), rec("/tmp/sub", 5, 6)]);
    app.handle_key(Key::Down);
    app.handle_key(Key::Char(':'));
    type_text(&mut app, "code");
    match app.handle_key(Key::Enter) {
        Action::OpenEditor(p) => assert_eq!(p, "/tmp/sub"),
        other => panic!("unexpected action {:?}", other),
    }
    assert!(!app.exit);
}

#[test]
fn editor_outcomes() {
    let mut app = command_app();
    app.display_stdout(None);
    assert_eq!(app.input.stdout_result, Some("Err! Failed to execute".to_string()));
    assert!(!app.exit);

    let mut quiet = command_app();
    quiet.display_stdout(Some(String::new()));
    assert!(quiet.exit);
    assert_eq!(quiet.input.stdout_result, None);

    let mut noisy = command_app();
    noisy.display_stdout(Some("warning".to_string()));
    assert!(noisy.exit);
    assert_eq!(noisy.input.stdout_result, Some("warning".to_string()));
}

#[test]
fn cd_requests_print_and_exits() {
    let mut app = command_app();
    type_text(&mut app, "cd");
    match app.handle_key(Key::Enter) {
        Action::PrintDir(p) => assert_eq!(p, "/tmp/a.txt"),
        other => panic!("unexpected action {:?}", other),
    }
    assert!(app.exit);
}

#[test]
fn commands_without_selection_do_nothing() {
    let mut app = App::new(Vec::new());
    app.handle_key(Key::Char(':'));
    type_text(&mut app, "cd");
    assert!(matches!(app.handle_key(Key::Enter), Action::Nothing));
    assert!(!app.exit);
    type_text(&mut app, "code");
    assert!(matches!(app.handle_key(Key::Enter), Action::Nothing));
}

#[test]
fn dispatch_words() {
    assert_eq!(dispatch_outcome(&"quit".chars().collect()), DispatchOutcome::Exit);
    assert_eq!(dispatch_outcome(&"code".chars().collect()), DispatchOutcome::OpenEditor);
    assert_eq!(dispatch_outcome(&"cd".chars().collect()), DispatchOutcome::ChangeDirectoryPrint);
    assert_eq!(dispatch_outcome(&"quit ".chars().collect()), DispatchOutcome::NoOp);
    assert_eq!(dispatch_outcome(&Vec::new()), DispatchOutcome::NoOp);
}

#[test]
fn input_text_follows_show_flag() {
    let mut app = command_app();
    type_text(&mut app, "héllo");
    assert_eq!(app.input_text(), "héllo");
    app.input.stdout_result = Some("out".to_string());
    app.handle_key(Key::Enter);
    assert_eq!(app.input_text(), "out");
    app.handle_key(Key::Char('z'));
    assert_eq!(app.input_text(), "z");
}

#[test]
fn display_path_in_three_parts() {
    let parts = App::get_formated_display_path(&rec("/tmp/sub/ab.txt", 9, 10));
    assert_eq!(parts, ("/tmp/sub/".to_string(), "a".to_string(), "b.txt".to_string()));
    let multi = App::get_formated_display_path(&rec("é/x", 2, 3));
    assert_eq!(multi, ("é".to_string(), "/".to_string(), "x".to_string()));
    let off = App::get_formated_display_path(&rec("é", 1, 2));
    assert_eq!(off, ("é".to_string(), String::new(), String::new()));
}

#[test]
fn working_dir_choice() {
    assert_eq!(working_dir("/a/b".to_string(), true, Some("/a".to_string())), Some("/a/b".to_string()));
    assert_eq!(working_dir("/a/b.txt".to_string(), false, Some("/a".to_string())), Some("/a".to_string()));
    assert_eq!(working_dir("b.txt".to_string(), false, None), None);
}
