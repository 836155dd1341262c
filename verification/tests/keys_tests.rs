use git_cheatsheet::app::{App, Mode, Pane};
use git_cheatsheet::keys::{Action, KeyCode, KeyInput};

fn key(code: KeyCode) -> KeyInput {
    KeyInput { code, ctrl: false }
}

fn ch(c: char) -> KeyInput {
    key(KeyCode::Char(c))
}

fn is_continue(a: &Action) -> bool {
    matches!(a, Action::Continue)
}

#[test]
fn q_quits_in_normal_mode() {
    let mut app = App::new();
    assert!(matches!(app.handle_key(ch('q')), Action::Quit));
}

#[test]
fn ctrl_c_quits_in_every_mode() {
    let ctrl_c = KeyInput { code: KeyCode::Char('c'), ctrl: true };
    let mut app = App::new();
    assert!(matches!(app.handle_key(ctrl_c), Action::Quit));
    app.handle_key(ch('/'));
    assert!(matches!(app.handle_key(ctrl_c), Action::Quit));
    let mut help = App::new();
    help.handle_key(ch('?'));
    assert!(matches!(help.handle_key(ctrl_c), Action::Quit));
}

#[test]
fn j_and_k_move_in_the_list() {
    let mut app = App::new();
    assert!(is_continue(&app.handle_key(ch('j'))));
    assert_eq!(app.command_index, 1);
    app.handle_key(key(KeyCode::Down));
    assert_eq!(app.command_index, 2);
    app.handle_key(ch('k'));
    app.handle_key(key(KeyCode::Up));
    assert_eq!(app.command_index, 0);
}

#[test]
fn j_and_k_move_categories_in_the_sidebar() {
    let mut app = App::new();
    app.handle_key(key(KeyCode::Tab));
    assert!(app.active_pane == Pane::Sidebar);
    app.handle_key(ch('j'));
    assert_eq!(app.category_index, 1);
    app.handle_key(ch('k'));
    app.handle_key(ch('k'));
    assert_eq!(app.category_index, 12);
    app.handle_key(key(KeyCode::Tab));
    assert!(app.active_pane == Pane::List);
}

#[test]
fn h_and_l_change_category() {
    let mut app = App::new();
    app.handle_key(ch('l'));
    app.handle_key(key(KeyCode::Right));
    assert_eq!(app.category_index, 2);
    app.handle_key(ch('h'));
    assert_eq!(app.category_index, 1);
    app.handle_key(key(KeyCode::Left));
    assert_eq!(app.category_index, 0);
}

#[test]
fn g_and_shift_g_jump_to_the_ends() {
    let mut app = App::new();
    app.handle_key(ch('G'));
    assert_eq!(app.command_index, 7);
    app.handle_key(ch('j'));
    assert_eq!(app.command_index, 0);
    app.handle_key(ch('G'));
    app.handle_key(ch('g'));
    assert_eq!(app.command_index, 0);
}

#[test]
fn help_opens_and_closes() {
    let mut app = App::new();
    app.handle_key(ch('?'));
    assert!(app.mode == Mode::Help);
    app.handle_key(ch('j'));
    assert_eq!(app.command_index, 0);
    assert!(app.mode == Mode::Help);
    app.handle_key(key(KeyCode::Esc));
    assert!(app.mode == Mode::Normal);
    app.handle_key(ch('?'));
    assert!(is_continue(&app.handle_key(ch('q'))));
    assert!(app.mode == Mode::Normal);
    app.handle_key(ch('?'));
    app.handle_key(ch('?'));
    assert!(app.mode == Mode::Normal);
}

#[test]
fn typing_in_search_mode() {
    let mut app = App::new();
    app.handle_key(key(KeyCode::Tab));
    app.handle_key(ch('/'));
    assert!(app.mode == Mode::Search);
    assert!(app.active_pane == Pane::List);
    for c in "tag".chars() {
        app.handle_key(ch(c));
    }
    assert_eq!(app.search_query, "tag");
    app.handle_key(key(KeyCode::Backspace));
    assert_eq!(app.search_query, "ta");
    app.handle_key(ch('c'));
    assert_eq!(app.search_query, "tac");
    app.handle_key(ch('j'));
    assert_eq!(app.search_query, "tac");
    app.handle_key(key(KeyCode::Esc));
    assert!(app.mode == Mode::Normal);
    assert!(app.search_query.is_empty());
}

#[test]
fn yank_copies_the_selected_command() {
    let mut app = App::new();
    app.handle_key(ch('j'));
    match app.handle_key(ch('y')) {
        Action::Copy(text) => assert_eq!(text, "git clone"),
        _ => panic!("expected a copy"),
    }
    assert_eq!(app.status_message.as_deref(), Some("copied: git clone <url>"));
    match app.handle_key(key(KeyCode::Enter)) {
        Action::Copy(text) => assert_eq!(text, "git clone"),
        _ => panic!("expected a copy"),
    }
}

#[test]
fn yank_in_search_copies_the_result() {
    let mut app = App::new();
    app.handle_key(ch('/'));
    for c in "clean".chars() {
        app.handle_key(ch(c));
    }
    match app.handle_key(key(KeyCode::Enter)) {
        Action::Copy(text) => assert_eq!(text, "git clean -fd"),
        _ => panic!("expected a copy"),
    }
}

#[test]
fn other_keys_do_nothing() {
    let mut app = App::new();
    assert!(is_continue(&app.handle_key(ch('x'))));
    assert!(is_continue(&app.handle_key(key(KeyCode::Other))));
    assert_eq!(app.command_index, 0);
    assert!(app.mode == Mode::Normal);
}

#[test]
fn q_types_in_search_mode() {
    let mut app = App::new();
    app.handle_key(ch('/'));
    assert!(is_continue(&app.handle_key(ch('q'))));
    assert_eq!(app.search_query, "q");
    assert!(app.mode == Mode::Search);
}
