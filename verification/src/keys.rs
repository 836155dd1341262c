//! What each key does in each mode: the decision of the event loop, from the
//! state and a key press to the next state and what the program does next.

use vstd::prelude::*;
use crate::app::{
    copied, next_index, previous_index, query_set, search_exited, App, Mode, Pane,
};

verus! {

/// A key, as far as the browser tells keys apart.
#[derive(PartialEq, Eq, Structural, Clone, Copy, Debug)]
pub enum KeyCode {
    Char(char),
    Up,
    Down,
    Left,
    Right,
    Tab,
    Enter,
    Esc,
    Backspace,
    Other,
}

/// A key press: the key, and whether Control was held.
#[derive(PartialEq, Eq, Structural, Clone, Copy, Debug)]
pub struct KeyInput {
    pub code: KeyCode,
    pub ctrl: bool,
}

/// What the program does after a key press.
pub enum Action {
    /// Keep running.
    Continue,
    /// Stop the program.
    Quit,
    /// Put this text on the clipboard, and keep running.
    Copy(String),
}

pub open spec fn is_char(key: KeyInput, c: char) -> bool {
    key.code == KeyCode::Char(c)
}

/// Control-C.
pub open spec fn is_interrupt(key: KeyInput) -> bool {
    key.code == KeyCode::Char('c') && key.ctrl
}

/// The state does not change and the program keeps running.
pub open spec fn unchanged(pre: App, post: App, action: Action) -> bool {
    post == pre && action is Continue
}

/// The outcome of a copy request: the selected command is copied, or, with no
/// selected command, nothing happens.
pub open spec fn copy_outcome(pre: App, post: App, action: Action) -> bool {
    match action {
        Action::Copy(text) => pre.selection() matches Some(command) && copied(
            pre,
            post,
            command,
            text@,
        ),
        Action::Continue => pre.selection() is None && post == pre,
        Action::Quit => false,
    }
}

/// `post` is `pre` with the command selection moved one step down.
pub open spec fn moved_down(pre: App, post: App) -> bool {
    post == (App { command_index: next_index(pre.command_index, pre.visible().len()), ..pre })
}

/// `post` is `pre` with the command selection moved one step up.
pub open spec fn moved_up(pre: App, post: App) -> bool {
    post == (App { command_index: previous_index(pre.command_index, pre.visible().len()), ..pre })
}

/// `post` is `pre` with the next category selected.
pub open spec fn category_forward(pre: App, post: App) -> bool {
    search_exited(
        App {
            category_index: next_index(pre.category_index, pre.categories@.len()),
            command_index: 0,
            ..pre
        },
        post,
    )
}

/// `post` is `pre` with the previous category selected.
pub open spec fn category_back(pre: App, post: App) -> bool {
    search_exited(
        App {
            category_index: previous_index(pre.category_index, pre.categories@.len()),
            command_index: 0,
            ..pre
        },
        post,
    )
}

/// The effect of a key in help mode.
pub open spec fn help_key(pre: App, post: App, key: KeyInput, action: Action) -> bool {
    if is_char(key, 'q') || is_char(key, '?') || key.code == KeyCode::Esc {
        post == (App { mode: Mode::Normal, ..pre }) && action is Continue
    } else if is_interrupt(key) {
        post == pre && action is Quit
    } else {
        unchanged(pre, post, action)
    }
}

/// The effect of a key in search mode.
pub open spec fn search_key(pre: App, post: App, key: KeyInput, action: Action) -> bool {
    if key.code == KeyCode::Esc {
        search_exited(pre, post) && action is Continue
    } else if key.code == KeyCode::Backspace {
        query_set(
            pre,
            post,
            if pre.search_query@.len() > 0 {
                pre.search_query@.drop_last()
            } else {
                pre.search_query@
            },
        ) && action is Continue
    } else if is_interrupt(key) {
        post == pre && action is Quit
    } else if key.code == KeyCode::Down || is_char(key, 'j') {
        moved_down(pre, post) && action is Continue
    } else if key.code == KeyCode::Up || is_char(key, 'k') {
        moved_up(pre, post) && action is Continue
    } else if key.code == KeyCode::Enter || is_char(key, 'y') {
        copy_outcome(pre, post, action)
    } else {
        match key.code {
            KeyCode::Char(c) => query_set(pre, post, pre.search_query@.push(c))
                && action is Continue,
            _ => unchanged(pre, post, action),
        }
    }
}

/// The effect of a key in normal mode.
pub open spec fn normal_key(pre: App, post: App, key: KeyInput, action: Action) -> bool {
    if is_char(key, 'q') || is_interrupt(key) {
        post == pre && action is Quit
    } else if is_char(key, '?') {
        post == (App { mode: Mode::Help, ..pre }) && action is Continue
    } else if is_char(key, '/') {
        post == (App { mode: Mode::Search, active_pane: Pane::List, ..pre }) && action is Continue
    } else if key.code == KeyCode::Down || is_char(key, 'j') {
        (if pre.active_pane == Pane::List {
            moved_down(pre, post)
        } else {
            category_forward(pre, post)
        }) && action is Continue
    } else if key.code == KeyCode::Up || is_char(key, 'k') {
        (if pre.active_pane == Pane::List {
            moved_up(pre, post)
        } else {
            category_back(pre, post)
        }) && action is Continue
    } else if key.code == KeyCode::Right || is_char(key, 'l') {
        category_forward(pre, post) && action is Continue
    } else if key.code == KeyCode::Left || is_char(key, 'h') {
        category_back(pre, post) && action is Continue
    } else if is_char(key, 'g') {
        post == (App { command_index: 0, ..pre }) && action is Continue
    } else if is_char(key, 'G') {
        post == (App {
            command_index: if pre.visible().len() > 0 {
                (pre.visible().len() - 1) as usize
            } else {
                pre.command_index
            },
            ..pre
        }) && action is Continue
    } else if key.code == KeyCode::Tab {
        post == (App {
            active_pane: if pre.active_pane == Pane::List {
                Pane::Sidebar
            } else {
                Pane::List
            },
            ..pre
        }) && action is Continue
    } else if key.code == KeyCode::Enter || is_char(key, 'y') {
        copy_outcome(pre, post, action)
    } else {
        unchanged(pre, post, action)
    }
}

/// The effect of a key in the mode of `pre`.
pub open spec fn key_effect(pre: App, post: App, key: KeyInput, action: Action) -> bool {
    match pre.mode {
        Mode::Help => help_key(pre, post, key, action),
        Mode::Search => search_key(pre, post, key, action),
        Mode::Normal => normal_key(pre, post, key, action),
    }
}

impl App {
    /// Applies a key press to the state and says what the program does next.
    pub fn handle_key(&mut self, key: KeyInput) -> (action: Action)
        requires
            old(self).valid(),
        ensures
            final(self).valid(),
            old(self).wf() ==> final(self).wf(),
            key_effect(*old(self), *final(self), key, action),
    {
        let interrupt = key.ctrl && key.code == KeyCode::Char('c');
        match self.mode {
            Mode::Help => {
                if key.code == KeyCode::Char('q') || key.code == KeyCode::Char('?') || key.code
                    == KeyCode::Esc {
                    self.mode = Mode::Normal;
                    Action::Continue
                } else if interrupt {
                    Action::Quit
                } else {
                    Action::Continue
                }
            },
            Mode::Search => {
                if key.code == KeyCode::Esc {
                    self.exit_search();
                    Action::Continue
                } else if key.code == KeyCode::Backspace {
                    self.remove_search_character();
                    Action::Continue
                } else if interrupt {
                    Action::Quit
                } else if key.code == KeyCode::Down || key.code == KeyCode::Char('j') {
                    self.select_next_command();
                    Action::Continue
                } else if key.code == KeyCode::Up || key.code == KeyCode::Char('k') {
                    self.select_previous_command();
                    Action::Continue
                } else if key.code == KeyCode::Enter || key.code == KeyCode::Char('y') {
                    self.copy_selected()
                } else {
                    match key.code {
                        KeyCode::Char(c) => {
                            self.append_search_character(c);
                            Action::Continue
                        },
                        _ => Action::Continue,
                    }
                }
            },
            Mode::Normal => {
                if key.code == KeyCode::Char('q') || interrupt {
                    Action::Quit
                } else if key.code == KeyCode::Char('?') {
                    self.mode = Mode::Help;
                    Action::Continue
                } else if key.code == KeyCode::Char('/') {
                    self.enter_search();
                    Action::Continue
                } else if key.code == KeyCode::Down || key.code == KeyCode::Char('j') {
                    if self.active_pane == Pane::List {
                        self.select_next_command();
                    } else {
                        self.select_next_category();
                    }
                    Action::Continue
                } else if key.code == KeyCode::Up || key.code == KeyCode::Char('k') {
                    if self.active_pane == Pane::List {
                        self.select_previous_command();
                    } else {
                        self.select_previous_category();
                    }
                    Action::Continue
                } else if key.code == KeyCode::Right || key.code == KeyCode::Char('l') {
                    self.select_next_category();
                    Action::Continue
                } else if key.code == KeyCode::Left || key.code == KeyCode::Char('h') {
                    self.select_previous_category();
                    Action::Continue
                } else if key.code == KeyCode::Char('g') {
                    self.command_index = 0;
                    Action::Continue
                } else if key.code == KeyCode::Char('G') {
                    let len = self.visible_commands().len();
                    if len > 0 {
                        self.command_index = len - 1;
                    }
                    Action::Continue
                } else if key.code == KeyCode::Tab {
                    self.active_pane =
                        if self.active_pane == Pane::List {
                            Pane::Sidebar
                        } else {
                            Pane::List
                        };
                    Action::Continue
                } else if key.code == KeyCode::Enter || key.code == KeyCode::Char('y') {
                    self.copy_selected()
                } else {
                    Action::Continue
                }
            },
        }
    }

    fn copy_selected(&mut self) -> (action: Action)
        requires
            old(self).can_show(),
        ensures
            copy_outcome(*old(self), *final(self), action),
    {
        match self.extract_command_for_clipboard() {
            Some(text) => Action::Copy(text),
            None => Action::Continue,
        }
    }
}

} // verus!
