use git_cheatsheet::app::{App, Mode, Pane, COPY_FEEDBACK_TICKS};
use git_cheatsheet::data::{categories, CATEGORY_COUNT, COMMAND_COUNT};

fn cmds(app: &App) -> Vec<&'static str> {
    app.visible_commands().iter().map(|c| c.cmd).collect()
}

#[test]
fn new_app_starts_in_normal_mode_on_first_category() {
    let app = App::new();
    assert!(app.mode == Mode::Normal);
    assert!(app.active_pane == Pane::List);
    assert_eq!(app.category_index, 0);
    assert_eq!(app.command_index, 0);
    assert!(app.search_query.is_empty());
    assert!(app.search_results.is_empty());
    assert_eq!(app.copy_feedback_timer, 0);
    assert!(app.status_message.is_none());
    assert_eq!(app.categories.len(), CATEGORY_COUNT);
}

#[test]
fn total_commands_counts_the_whole_catalogue() {
    let total: usize = categories().iter().map(|c| c.commands.len()).sum();
    assert_eq!(App::total_commands(), total);
    assert_eq!(App::total_commands(), COMMAND_COUNT);
    assert_eq!(COMMAND_COUNT, 123);
    assert_eq!(CATEGORY_COUNT, 13);
}

#[test]
fn visible_commands_are_the_selected_category() {
    let app = App::new();
    let expected: Vec<&'static str> = app.categories[0].commands.iter().map(|c| c.cmd).collect();
    assert_eq!(cmds(&app), expected);
    assert_eq!(app.selected_command().unwrap().cmd, "git init");
}

#[test]
fn next_command_wraps_to_first() {
    let mut app = App::new();
    let n = app.visible_commands().len();
    assert_eq!(n, 8);
    for i in 1..n {
        app.select_next_command();
        assert_eq!(app.command_index, i);
    }
    app.select_next_command();
    assert_eq!(app.command_index, 0);
}

#[test]
fn previous_command_wraps_to_last() {
    let mut app = App::new();
    app.select_previous_command();
    assert_eq!(app.command_index, 7);
    app.select_previous_command();
    assert_eq!(app.command_index, 6);
}

#[test]
fn down_then_up_returns_to_same_command() {
    let mut app = App::new();
    app.select_next_command();
    app.select_next_command();
    let before = app.command_index;
    app.select_next_command();
    app.select_previous_command();
    assert_eq!(app.command_index, before);
}

#[test]
fn next_command_from_beyond_the_list_wraps_by_modulo() {
    let mut app = App::new();
    app.command_index = 12;
    app.select_next_command();
    assert_eq!(app.command_index, (12 + 1) % 8);
    app.command_index = usize::MAX;
    app.select_next_command();
    assert_eq!(app.command_index, ((usize::MAX as u128 + 1) % 8) as usize);
}

#[test]
fn categories_wrap_both_ways_and_reset_selection() {
    let mut app = App::new();
    app.command_index = 3;
    app.select_previous_category();
    assert_eq!(app.category_index, CATEGORY_COUNT - 1);
    assert_eq!(app.command_index, 0);
    assert_eq!(cmds(&app), vec!["git help <cmd>", "git <cmd> -h"]);
    app.select_next_category();
    assert_eq!(app.category_index, 0);
    app.select_next_category();
    assert_eq!(app.category_index, 1);
}

#[test]
fn category_change_leaves_search() {
    let mut app = App::new();
    app.enter_search();
    app.append_search_character('s');
    app.select_next_category();
    assert!(app.mode == Mode::Normal);
    assert!(app.search_query.is_empty());
    assert!(app.search_results.is_empty());
    assert_eq!(app.category_index, 1);
}

#[test]
fn search_finds_matching_commands_in_order() {
    let mut app = App::new();
    app.enter_search();
    for c in "stash".chars() {
        app.append_search_character(c);
    }
    assert_eq!(app.search_results, (0..9).map(|k| (7, k)).collect::<Vec<_>>());
    assert_eq!(app.visible_commands().len(), 9);
    assert_eq!(app.selected_command().unwrap().cmd, "git stash");
    for c in app.visible_commands() {
        assert!(c.cmd.to_lowercase().contains("stash") || c.desc.to_lowercase().contains("stash"));
    }
}

#[test]
fn search_ignores_case() {
    let mut upper = App::new();
    let mut lower = App::new();
    upper.enter_search();
    lower.enter_search();
    for c in "REBASE".chars() {
        upper.append_search_character(c);
    }
    for c in "rebase".chars() {
        lower.append_search_character(c);
    }
    assert_eq!(upper.search_results, lower.search_results);
    assert_eq!(upper.search_results, vec![(3, 2), (3, 3), (3, 7), (3, 8), (10, 5)]);
}

#[test]
fn search_matches_descriptions() {
    let mut app = App::new();
    app.enter_search();
    for c in "history".chars() {
        app.append_search_character(c);
    }
    assert_eq!(app.search_results, vec![(5, 0), (5, 2)]);
}

#[test]
fn search_without_match_shows_nothing() {
    let mut app = App::new();
    app.enter_search();
    for c in "zzz".chars() {
        app.append_search_character(c);
    }
    assert!(app.visible_commands().is_empty());
    assert!(app.selected_command().is_none());
    app.select_next_command();
    assert_eq!(app.command_index, 0);
    let mut copy = App::new();
    copy.enter_search();
    for c in "zzz".chars() {
        copy.append_search_character(c);
    }
    assert!(copy.extract_command_for_clipboard().is_none());
    assert_eq!(copy.copy_feedback_timer, 0);
    assert!(copy.status_message.is_none());
}

#[test]
fn deleting_the_query_shows_the_category_again() {
    let mut app = App::new();
    app.enter_search();
    app.append_search_character('x');
    app.remove_search_character();
    assert!(app.search_query.is_empty());
    assert!(app.mode == Mode::Search);
    assert_eq!(app.search_results.len(), COMMAND_COUNT);
    let expected: Vec<&'static str> = app.categories[0].commands.iter().map(|c| c.cmd).collect();
    assert_eq!(cmds(&app), expected);
    app.remove_search_character();
    assert!(app.search_query.is_empty());
}

#[test]
fn type_then_delete_restores_results() {
    let mut app = App::new();
    app.enter_search();
    app.append_search_character('t');
    app.append_search_character('a');
    app.append_search_character('g');
    let results = app.search_results.clone();
    app.select_next_command();
    app.append_search_character('q');
    app.remove_search_character();
    assert_eq!(app.search_query, "tag");
    assert_eq!(app.search_results, results);
    assert_eq!(app.command_index, 0);
}

#[test]
fn enter_then_exit_search() {
    let mut app = App::new();
    app.active_pane = Pane::Sidebar;
    app.enter_search();
    assert!(app.mode == Mode::Search);
    assert!(app.active_pane == Pane::List);
    app.append_search_character('g');
    app.exit_search();
    assert!(app.mode == Mode::Normal);
    assert!(app.search_query.is_empty());
    assert!(app.search_results.is_empty());
    assert_eq!(app.command_index, 0);
    app.exit_search();
    assert!(app.mode == Mode::Normal);
}

#[test]
fn exit_search_outside_search_mode_changes_nothing() {
    let mut app = App::new();
    app.command_index = 2;
    app.exit_search();
    assert_eq!(app.command_index, 2);
}

#[test]
fn copy_cleans_placeholders_and_starts_feedback() {
    let mut app = App::new();
    app.select_next_command();
    let text = app.extract_command_for_clipboard();
    assert_eq!(text.as_deref(), Some("git clone"));
    assert_eq!(app.copy_feedback_timer, COPY_FEEDBACK_TICKS);
    assert_eq!(app.status_message.as_deref(), Some("copied: git clone <url>"));
}

#[test]
fn copy_fills_quoted_placeholders() {
    let mut app = App::new();
    app.command_index = 3;
    assert_eq!(
        app.extract_command_for_clipboard().as_deref(),
        Some("git config --global user.name \"Your Name\"")
    );
    app.command_index = 4;
    assert_eq!(
        app.extract_command_for_clipboard().as_deref(),
        Some("git config --global user.email \"you@email.com\"")
    );
}

#[test]
fn copy_of_a_plain_command_is_verbatim() {
    let mut app = App::new();
    assert_eq!(app.extract_command_for_clipboard().as_deref(), Some("git init"));
}

#[test]
fn feedback_expires_after_eight_ticks() {
    let mut app = App::new();
    app.extract_command_for_clipboard();
    for _ in 0..7 {
        app.update_timers();
        assert!(app.status_message.is_some());
    }
    app.update_timers();
    assert_eq!(app.copy_feedback_timer, 0);
    assert!(app.status_message.is_none());
    app.update_timers();
    assert_eq!(app.copy_feedback_timer, 0);
}

#[test]
fn ticks_without_feedback_change_nothing() {
    let mut app = App::new();
    app.update_timers();
    assert_eq!(app.copy_feedback_timer, 0);
    assert!(app.status_message.is_none());
}

#[test]
fn moving_down_as_often_as_there_are_commands_comes_back() {
    let mut app = App::new();
    app.select_next_category();
    app.select_next_command();
    let n = app.visible_commands().len();
    assert_eq!(n, 11);
    for _ in 0..n {
        app.select_next_command();
    }
    assert_eq!(app.command_index, 1);
}

#[test]
fn catalogue_entries_are_as_listed() {
    let cats = categories();
    let names: Vec<&str> = cats.iter().map(|c| c.name).collect();
    assert_eq!(names[0], "Getting Started");
    assert_eq!(names[12], "Getting Help");
    let counts: Vec<usize> = cats.iter().map(|c| c.commands.len()).collect();
    assert_eq!(counts, vec![8, 11, 10, 10, 11, 11, 11, 9, 8, 10, 10, 12, 2]);
    let status = cats[1].commands[0];
    assert_eq!(status.cmd, "git status");
    assert_eq!(status.desc, "Show the state of the working tree and index.");
    assert!(!status.danger);
    assert!(cats[6].commands[4].danger);
    assert_eq!(cats[6].commands[4].cmd, "git reset --hard <commit>");
}

#[test]
fn typing_narrows_and_empty_query_lists_everything() {
    let mut app = App::new();
    app.enter_search();
    app.append_search_character('t');
    let wide = app.search_results.clone();
    app.append_search_character('a');
    let narrow = app.search_results.clone();
    assert!(narrow.len() <= wide.len());
    assert!(narrow.iter().all(|id| wide.contains(id)));
    assert!(wide.len() <= COMMAND_COUNT);
    app.remove_search_character();
    app.remove_search_character();
    assert_eq!(app.search_results.len(), COMMAND_COUNT);
}

#[test]
fn category_change_from_an_index_beyond_the_catalogue_wraps() {
    let mut app = App::new();
    app.category_index = 20;
    app.select_next_category();
    assert_eq!(app.category_index, 21 % 13);
    app.category_index = 20;
    app.select_previous_category();
    assert_eq!(app.category_index, (20 + 13 - 1) % 13);
}

#[test]
fn new_app_browses_the_built_in_catalogue() {
    let app = App::new();
    let built_in = categories();
    assert_eq!(app.categories.len(), built_in.len());
    for (a, b) in app.categories.iter().zip(built_in.iter()) {
        assert_eq!(a.name, b.name);
        let ac: Vec<&str> = a.commands.iter().map(|c| c.cmd).collect();
        let bc: Vec<&str> = b.commands.iter().map(|c| c.cmd).collect();
        assert_eq!(ac, bc);
    }
    assert_eq!(app.categories[0].name, "Getting Started");
}

#[test]
fn typing_a_letter_in_either_case_finds_the_same() {
    let mut upper = App::new();
    let mut lower = App::new();
    upper.enter_search();
    lower.enter_search();
    upper.append_search_character('L');
    lower.append_search_character('l');
    upper.append_search_character('O');
    lower.append_search_character('o');
    assert_eq!(upper.search_results, lower.search_results);
    assert_eq!(upper.command_index, 0);
}
