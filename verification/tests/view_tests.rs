use git_cheatsheet::app::Mode;
use git_cheatsheet::view::{
    centered, commands_pane_heights, help_bindings, help_line, is_too_small, row_highlight,
    sidebar_areas, command_details, command_row, empty_list_message, search_prompt, text_lines,
    SearchPrompt,
    status_keys, tokenize_command, Area, HelpLine, RowHighlight, TokenKind, HELP_MODAL_HEIGHT,
    HELP_MODAL_WIDTH,
};

fn toks(cmd: &str) -> Vec<(TokenKind, String)> {
    tokenize_command(cmd).into_iter().map(|t| (t.kind, t.text)).collect()
}

#[test]
fn too_small_below_sixty_by_twenty_four() {
    assert!(is_too_small(59, 40));
    assert!(is_too_small(100, 23));
    assert!(!is_too_small(60, 24));
}

#[test]
fn centered_popup() {
    let area = Area { x: 0, y: 0, width: 100, height: 40 };
    assert_eq!(
        centered(area, HELP_MODAL_WIDTH, HELP_MODAL_HEIGHT),
        Area { x: 23, y: 7, width: 54, height: 26 }
    );
    let small = Area { x: 2, y: 3, width: 30, height: 4 };
    assert_eq!(centered(small, 36, 5), Area { x: 2, y: 3, width: 30, height: 4 });
    let odd = Area { x: 1, y: 1, width: 41, height: 10 };
    assert_eq!(centered(odd, 36, 5), Area { x: 3, y: 3, width: 36, height: 5 });
}

#[test]
fn pane_heights() {
    assert_eq!(commands_pane_heights(30), (21, 9));
    assert_eq!(commands_pane_heights(10), (4, 6));
    assert_eq!(commands_pane_heights(3), (3, 0));
    assert_eq!(commands_pane_heights(0), (0, 0));
}

#[test]
fn tokens_of_command_lines() {
    assert_eq!(
        toks("git commit -m \"<message>\""),
        vec![
            (TokenKind::Word, "commit".to_string()),
            (TokenKind::Flag, "-m".to_string()),
            (TokenKind::Placeholder, "\"<message>\"".to_string()),
        ]
    );
    assert_eq!(
        toks("git push <remote> <branch"),
        vec![
            (TokenKind::Word, "push".to_string()),
            (TokenKind::Placeholder, "<remote>".to_string()),
            (TokenKind::Word, "<branch".to_string()),
        ]
    );
    assert_eq!(toks("git"), vec![]);
    assert_eq!(toks("git status"), vec![(TokenKind::Word, "status".to_string())]);
    assert_eq!(
        toks("git  log "),
        vec![
            (TokenKind::Word, "".to_string()),
            (TokenKind::Word, "log".to_string()),
            (TokenKind::Word, "".to_string()),
        ]
    );
}

#[test]
fn tokens_agree_with_std_split() {
    for cmd in ["git rebase -i <commit>", "git  a  b", "git x", "git", "git <a> -b \"c"] {
        let expected: Vec<String> = match cmd.split_once(' ') {
            Some((_, rest)) => rest.split(' ').map(|s| s.to_string()).collect(),
            None => vec![],
        };
        let got: Vec<String> = tokenize_command(cmd).into_iter().map(|t| t.text).collect();
        assert_eq!(got, expected);
    }
}

#[test]
fn row_highlights() {
    assert_eq!(row_highlight(false, 5, true), RowHighlight::Plain);
    assert_eq!(row_highlight(true, 5, true), RowHighlight::Copied);
    assert_eq!(row_highlight(true, 0, true), RowHighlight::Danger);
    assert_eq!(row_highlight(true, 0, false), RowHighlight::Selected);
}

#[test]
fn status_keys_depend_on_mode() {
    assert_eq!(status_keys(Mode::Search)[0], ("ESC", "exit search"));
    assert_eq!(status_keys(Mode::Search).len(), 4);
    assert_eq!(status_keys(Mode::Normal).len(), 6);
    assert_eq!(status_keys(Mode::Help)[5], ("q", "quit"));
}

#[test]
fn help_lines_are_classified() {
    assert!(matches!(help_line("", ""), HelpLine::Blank));
    assert!(matches!(help_line("Search", ""), HelpLine::Heading("Search")));
    assert!(matches!(help_line("  g", "jump"), HelpLine::Binding("  g", "jump")));
    let table = help_bindings();
    assert_eq!(table.len(), 20);
    assert_eq!(table[0], ("Navigation", ""));
}

#[test]
fn sidebar_has_header_row_above_the_list() {
    assert_eq!(
        sidebar_areas(Area { x: 1, y: 1, width: 25, height: 37 }),
        (Area { x: 1, y: 1, width: 25, height: 1 }, Area { x: 1, y: 2, width: 25, height: 36 })
    );
    assert_eq!(sidebar_areas(Area { x: 0, y: 5, width: 3, height: 0 }).1, Area { x: 0, y: 6, width: 3, height: 0 });
}

#[test]
fn centered_near_the_edge_of_the_coordinates() {
    let area = Area { x: 65000, y: 0, width: 500, height: 10 };
    assert_eq!(centered(area, 100, 4), Area { x: 65200, y: 3, width: 100, height: 4 });
}

#[test]
fn text_lines_agree_with_std_lines() {
    for text in ["", "a", "a\n", "a\nb", "a\r\nb\r\n", "\n", "\n\n", "x\r", "a\n\nb", "é\r\nß"] {
        let expected: Vec<String> = text.lines().map(|l| l.to_string()).collect();
        assert_eq!(text_lines(text), expected, "text {:?}", text);
    }
}

#[test]
fn details_show_note_only_when_present() {
    let with_note = git_cheatsheet::data::Command {
        cmd: "git x",
        desc: "d",
        note: "careful",
        example: "git x\ngit x -y",
        danger: false,
    };
    let details = command_details(&with_note);
    assert_eq!(details.note, Some("careful"));
    assert_eq!(details.examples, vec!["git x".to_string(), "git x -y".to_string()]);
    let without = git_cheatsheet::data::Command { note: "", example: "", ..with_note };
    let details = command_details(&without);
    assert_eq!(details.note, None);
    assert!(details.examples.is_empty());
}

#[test]
fn search_prompt_by_mode_and_query() {
    assert_eq!(search_prompt(Mode::Normal, &"abc".to_string()), SearchPrompt::Hint);
    assert_eq!(search_prompt(Mode::Help, &String::new()), SearchPrompt::Hint);
    assert_eq!(search_prompt(Mode::Search, &String::new()), SearchPrompt::TypeToSearch);
    assert_eq!(search_prompt(Mode::Search, &"g".to_string()), SearchPrompt::Query);
}

#[test]
fn empty_list_has_a_message() {
    assert_eq!(empty_list_message(0), Some("no results found"));
    assert_eq!(empty_list_message(3), None);
}

#[test]
fn rows_of_destructive_commands_are_marked() {
    let row = command_row(false, 0, true);
    assert!(row.danger_badge && row.alert_text);
    assert_eq!(row.highlight, RowHighlight::Plain);
    let row = command_row(true, 3, false);
    assert!(!row.danger_badge && !row.alert_text);
    assert_eq!(row.highlight, RowHighlight::Copied);
}
