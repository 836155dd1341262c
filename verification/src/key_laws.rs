//! What the keys do, stated directly over the state before and after a key
//! press, mode by mode.

use vstd::prelude::*;
use crate::app::{App, Mode, Pane};
use crate::keys::{key_effect, Action, KeyCode, KeyInput};
use crate::search::search_hits;
use crate::text::{clipboard_text, lowercase};

verus! {

/// Only Control-C, and `q` in normal mode, stop the program, and they change
/// nothing; every other key lets it run.
pub proof fn law_quit_keys(pre: App, post: App, key: KeyInput, action: Action)
    requires
        key_effect(pre, post, key, action),
    ensures
        key.code == KeyCode::Char('c') && key.ctrl ==> action is Quit,
        pre.mode == Mode::Normal && key.code == KeyCode::Char('q') ==> action is Quit,
        action is Quit ==> post == pre && ((key.code == KeyCode::Char('c') && key.ctrl) || (pre.mode
            == Mode::Normal && key.code == KeyCode::Char('q'))),
{
}

/// Esc leaves the search (clearing the query and the results and selecting
/// the first command) and closes the help; in normal mode it does nothing.
pub proof fn law_escape_key(pre: App, post: App, action: Action)
    requires
        key_effect(pre, post, KeyInput { code: KeyCode::Esc, ctrl: false }, action),
    ensures
        action is Continue,
        pre.mode == Mode::Search ==> post.mode == Mode::Normal && post.search_query@.len() == 0
            && post.search_results@.len() == 0 && post.command_index == 0
            && post.category_index == pre.category_index && post.active_pane == pre.active_pane,
        pre.mode == Mode::Help ==> post == (App { mode: Mode::Normal, ..pre }),
        pre.mode == Mode::Normal ==> post == pre,
{
}

/// In search mode a character key other than `j`, `k`, `y` and Control-C is
/// added to the query; the results become the commands that the new query
/// finds, and the first of them is selected.
pub proof fn law_typing_in_search(pre: App, post: App, key: KeyInput, c: char, action: Action)
    requires
        pre.mode == Mode::Search,
        key.code == KeyCode::Char(c),
        c != 'j' && c != 'k' && c != 'y',
        !(c == 'c' && key.ctrl),
        key_effect(pre, post, key, action),
    ensures
        action is Continue,
        post.search_query@ == pre.search_query@.push(c),
        post.search_results@ == search_hits(pre.categories@, lowercase(pre.search_query@.push(c))),
        post.command_index == 0,
        post.mode == Mode::Search,
        post.category_index == pre.category_index,
        post.categories == pre.categories,
{
}

/// In search mode Backspace takes the last character off the query, if it
/// has one, and searches again from the first command.
pub proof fn law_backspace_in_search(pre: App, post: App, action: Action)
    requires
        pre.mode == Mode::Search,
        key_effect(pre, post, KeyInput { code: KeyCode::Backspace, ctrl: false }, action),
    ensures
        action is Continue,
        pre.search_query@.len() > 0 ==> post.search_query@ == pre.search_query@.drop_last(),
        pre.search_query@.len() == 0 ==> post.search_query@ == pre.search_query@,
        post.search_results@ == search_hits(pre.categories@, lowercase(post.search_query@)),
        post.command_index == 0,
        post.mode == Mode::Search,
{
}

/// In normal mode `l` and Right, and `j` or Down on the sidebar, select the
/// next category, wrapping from the last to the first; `h` and Left, and `k`
/// or Up on the sidebar, the previous one. The first command of the category
/// is selected.
pub proof fn law_category_keys(pre: App, post: App, key: KeyInput, action: Action)
    requires
        pre.mode == Mode::Normal,
        pre.categories@.len() > 0,
        key_effect(pre, post, key, action),
    ensures
        (key.code == KeyCode::Right || key.code == KeyCode::Char('l') || (pre.active_pane
            == Pane::Sidebar && (key.code == KeyCode::Down || key.code == KeyCode::Char('j'))))
            ==> post == (App {
            category_index: ((pre.category_index + 1) % (pre.categories@.len() as int)) as usize,
            command_index: 0,
            ..pre
        }) && action is Continue,
        (key.code == KeyCode::Left || key.code == KeyCode::Char('h') || (pre.active_pane
            == Pane::Sidebar && (key.code == KeyCode::Up || key.code == KeyCode::Char('k'))))
            ==> post == (App {
            category_index: ((pre.category_index + pre.categories@.len() - 1) % (
            pre.categories@.len() as int)) as usize,
            command_index: 0,
            ..pre
        }) && action is Continue,
{
}

/// In normal mode Tab moves the focus to the other pane, `?` opens the help
/// and `/` starts a search with the list focused; nothing else changes.
pub proof fn law_mode_keys(pre: App, post: App, key: KeyInput, action: Action)
    requires
        pre.mode == Mode::Normal,
        key_effect(pre, post, key, action),
    ensures
        key.code == KeyCode::Tab ==> action is Continue && post == (App {
            active_pane: if pre.active_pane == Pane::List {
                Pane::Sidebar
            } else {
                Pane::List
            },
            ..pre
        }),
        key.code == KeyCode::Char('?') ==> action is Continue && post == (App {
            mode: Mode::Help,
            ..pre
        }),
        key.code == KeyCode::Char('/') ==> action is Continue && post == (App {
            mode: Mode::Search,
            active_pane: Pane::List,
            ..pre
        }),
{
}

/// In help mode `q`, `?` and Esc close the help; Control-C stops the
/// program; every other key does nothing.
pub proof fn law_help_keys(pre: App, post: App, key: KeyInput, action: Action)
    requires
        pre.mode == Mode::Help,
        key_effect(pre, post, key, action),
    ensures
        (key.code == KeyCode::Char('q') || key.code == KeyCode::Char('?') || key.code
            == KeyCode::Esc) ==> action is Continue && post == (App { mode: Mode::Normal, ..pre }),
        !(key.code == KeyCode::Char('q') || key.code == KeyCode::Char('?') || key.code
            == KeyCode::Esc) ==> post == pre,
{
}

/// Enter and `y`, in normal and in search mode, copy the selected command:
/// the action carries its clipboard text, the status message names it, and
/// the feedback lasts 8 ticks; with no selected command nothing happens.
pub proof fn law_copy_keys(pre: App, post: App, key: KeyInput, action: Action)
    requires
        pre.mode == Mode::Normal || pre.mode == Mode::Search,
        key.code == KeyCode::Enter || key.code == KeyCode::Char('y'),
        key_effect(pre, post, key, action),
    ensures
        pre.command_index < pre.visible().len() ==> ({
            let command = pre.visible()[pre.command_index as int];
            &&& action matches Action::Copy(text) && text@ == clipboard_text(command.cmd@)
            &&& post.status_message matches Some(message) && message@ == "copied: "@
                + command.cmd@
            &&& post.copy_feedback_timer == 8
            &&& post == (App {
                copy_feedback_timer: 8,
                status_message: post.status_message,
                ..pre
            })
        }),
        pre.command_index >= pre.visible().len() ==> action is Continue && post == pre,
{
}

} // verus!
