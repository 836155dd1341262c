//! The state of the browser: which category and command are selected, the
//! search in progress, and the feedback shown after a command is copied.

use vstd::prelude::*;
use vstd::string::StringExecFns;
use vstd::utf8::is_ascii_chars;
use crate::data::{catalog_fits, catalog_size, categories, is_builtin_catalog, Category, Command, CATEGORY_COUNT, COMMAND_COUNT};
use crate::search::{
    command_at, find_commands, id_before, law_hits_at_most_catalog, lemma_search_hits_exact,
    search_hits, valid_id,
};
use crate::text::{ascii_lowercase, chars_of, clipboard_command, clipboard_text, lowercase, pop_char, push_char, to_lowercase};

verus! {

/// The pane that has the keyboard focus.
#[derive(PartialEq, Eq, Structural, Clone, Copy, Debug)]
pub enum Pane {
    Sidebar,
    List,
}

/// What the keys do: browse, type a search, or show the key bindings.
#[derive(PartialEq, Eq, Structural, Clone, Copy, Debug)]
pub enum Mode {
    Normal,
    Search,
    Help,
}

/// How many ticks the copy feedback stays on screen.
pub const COPY_FEEDBACK_TICKS: u8 = 8;

/// The state of the browser over a catalogue of commands.
pub struct App {
    pub mode: Mode,
    pub active_pane: Pane,
    pub category_index: usize,
    pub command_index: usize,
    pub search_query: String,
    /// The commands that the search query finds, as (category, command) positions.
    pub search_results: Vec<(usize, usize)>,
    pub copy_feedback_timer: u8,
    pub status_message: Option<String>,
    /// The catalogue that is browsed.
    pub categories: Vec<Category>,
}

/// `i` moved one step forward in a list of `n` entries, wrapping at the end.
pub open spec fn next_index(i: usize, n: nat) -> usize {
    if n == 0 {
        i
    } else {
        ((i + 1) % (n as int)) as usize
    }
}

/// `i` moved one step back in a list of `n` entries, wrapping at the start.
pub open spec fn previous_index(i: usize, n: nat) -> usize {
    if n == 0 {
        i
    } else {
        ((i + n - 1) % (n as int)) as usize
    }
}

/// The state one tick later: the copy feedback counts down, and the status
/// message goes when it reaches zero.
pub open spec fn after_tick(a: App) -> App {
    if a.copy_feedback_timer == 0 {
        a
    } else if a.copy_feedback_timer == 1 {
        App { copy_feedback_timer: 0, status_message: None, ..a }
    } else {
        App { copy_feedback_timer: (a.copy_feedback_timer - 1) as u8, ..a }
    }
}

/// The state `n` ticks later.
pub open spec fn after_ticks(a: App, n: nat) -> App
    decreases n,
{
    if n == 0 {
        a
    } else {
        after_ticks(after_tick(a), (n - 1) as nat)
    }
}

/// `post` is `pre` after leaving the search: in search mode the query and the
/// results are cleared, the mode is back to normal and the first command is
/// selected; in any other mode nothing changes.
pub open spec fn search_exited(pre: App, post: App) -> bool {
    if pre.mode == Mode::Search {
        &&& post.search_query@.len() == 0
        &&& post.search_results@.len() == 0
        &&& post == (App {
            mode: Mode::Normal,
            command_index: 0,
            search_query: post.search_query,
            search_results: post.search_results,
            ..pre
        })
    } else {
        post == pre
    }
}

/// `post` is `pre` with the search query set to `query`, the results found
/// for it, and the first command selected. The results come in catalogue
/// order, each once, and are no more than the catalogue's commands.
pub open spec fn query_set(pre: App, post: App, query: Seq<char>) -> bool {
    &&& post.search_query@ == query
    &&& post.search_results@ == search_hits(pre.categories@, lowercase(query))
    &&& is_ascii_chars(query) ==> lowercase(query) == ascii_lowercase(query)
    &&& forall|i: int, j: int|
        0 <= i < j < post.search_results@.len() ==> id_before(
            #[trigger] post.search_results@[i],
            #[trigger] post.search_results@[j],
        )
    &&& post.search_results@.len() <= catalog_size(pre.categories@)
    &&& post == (App {
        command_index: 0,
        search_query: post.search_query,
        search_results: post.search_results,
        ..pre
    })
}

/// `post` is `pre` after `command` was copied as `text`: the feedback timer
/// starts and the status message names the command.
pub open spec fn copied(pre: App, post: App, command: Command, text: Seq<char>) -> bool {
    &&& text == clipboard_text(command.cmd@)
    &&& post.status_message matches Some(message) && message@ == "copied: "@ + command.cmd@
    &&& post == (App {
        copy_feedback_timer: COPY_FEEDBACK_TICKS,
        status_message: post.status_message,
        ..pre
    })
}

impl App {
    /// A search is in progress: search mode with a non-empty query.
    pub open spec fn searching(&self) -> bool {
        self.mode == Mode::Search && self.search_query@.len() > 0
    }

    /// The commands on screen: the search results while searching, else the
    /// commands of the selected category.
    pub open spec fn visible(&self) -> Seq<Command> {
        if self.searching() {
            self.search_results@.map_values(|id: (usize, usize)| command_at(self.categories@, id))
        } else {
            self.categories@[self.category_index as int].commands@
        }
    }

    /// The command at the selection, if the selection is on a visible command.
    pub open spec fn selection(&self) -> Option<Command> {
        if self.command_index < self.visible().len() {
            Some(self.visible()[self.command_index as int])
        } else {
            None
        }
    }

    /// The commands on screen can be read: while searching, the results name
    /// commands of the catalogue; otherwise the selected category is in it.
    pub open spec fn can_show(&self) -> bool {
        if self.searching() {
            forall|i: int|
                0 <= i < self.search_results@.len() ==> valid_id(
                    self.categories@,
                    #[trigger] self.search_results@[i],
                )
        } else {
            self.category_index < self.categories@.len()
        }
    }

    /// The state can be read: a non-empty catalogue whose counts fit in a
    /// `usize`, a selected category in it, and results that name commands of
    /// it.
    pub open spec fn valid(&self) -> bool {
        &&& self.categories@.len() > 0
        &&& catalog_fits(self.categories@)
        &&& self.category_index < self.categories@.len()
        &&& self.search_results@.len() <= usize::MAX
        &&& forall|i: int|
            0 <= i < self.search_results@.len() ==> valid_id(
                self.categories@,
                #[trigger] self.search_results@[i],
            )
    }

    /// The invariant of the state: it can be read, and for a non-empty query
    /// the results are exactly what the query finds.
    pub open spec fn wf(&self) -> bool {
        &&& self.valid()
        &&& self.search_query@.len() > 0 ==> self.search_results@ == search_hits(
            self.categories@,
            lowercase(self.search_query@),
        )
    }

    /// A browser over the built-in catalogue, in normal mode, with the list
    /// focused and the first command of the first category selected.
    pub fn new() -> (r: Self)
        ensures
            r.wf(),
            r.mode == Mode::Normal,
            r.active_pane == Pane::List,
            r.category_index == 0,
            r.command_index == 0,
            r.search_query@.len() == 0,
            r.search_results@.len() == 0,
            r.copy_feedback_timer == 0,
            r.status_message is None,
            is_builtin_catalog(r.categories@),
            catalog_size(r.categories@) == COMMAND_COUNT,
    {
        App {
            mode: Mode::Normal,
            active_pane: Pane::List,
            category_index: 0,
            command_index: 0,
            search_query: String::new(),
            search_results: Vec::new(),
            copy_feedback_timer: 0,
            status_message: None,
            categories: categories(),
        }
    }

    fn visible_len(&self) -> (r: usize)
        requires
            self.can_show(),
        ensures
            r == self.visible().len(),
    {
        if self.mode == Mode::Search && self.search_query.as_str().is_empty() == false {
            self.search_results.len()
        } else {
            self.categories[self.category_index].commands.len()
        }
    }

    /// The commands on screen, in order.
    pub fn visible_commands(&self) -> (r: Vec<&Command>)
        requires
            self.can_show(),
        ensures
            r@.len() == self.visible().len(),
            forall|i: int| 0 <= i < r@.len() ==> *r@[i] == self.visible()[i],
    {
        let mut r: Vec<&Command> = Vec::new();
        if self.mode == Mode::Search && !self.search_query.as_str().is_empty() {
            let mut i: usize = 0;
            while i < self.search_results.len()
                invariant
                    self.can_show(),
                    self.searching(),
                    i <= self.search_results@.len(),
                    r@.len() == i,
                    forall|j: int| 0 <= j < i ==> *r@[j] == self.visible()[j],
                decreases self.search_results@.len() - i,
            {
                let id = self.search_results[i];
                assert(valid_id(self.categories@, self.search_results@[i as int]));
                r.push(&self.categories[id.0].commands[id.1]);
                i = i + 1;
            }
        } else {
            let commands = &self.categories[self.category_index].commands;
            let mut i: usize = 0;
            while i < commands.len()
                invariant
                    !self.searching(),
                    self.category_index < self.categories@.len(),
                    commands == self.categories@[self.category_index as int].commands,
                    i <= commands@.len(),
                    r@.len() == i,
                    forall|j: int| 0 <= j < i ==> *r@[j] == self.visible()[j],
                decreases commands@.len() - i,
            {
                r.push(&commands[i]);
                i = i + 1;
            }
        }
        r
    }

    /// The selected command, if the selection is on a visible command.
    pub fn selected_command(&self) -> (r: Option<&Command>)
        requires
            self.can_show(),
        ensures
            match r {
                Some(c) => self.selection() == Some(*c),
                None => self.selection() is None,
            },
    {
        if self.mode == Mode::Search && !self.search_query.as_str().is_empty() {
            if self.command_index < self.search_results.len() {
                let id = self.search_results[self.command_index];
                assert(valid_id(self.categories@, self.search_results@[self.command_index as int]));
                Some(&self.categories[id.0].commands[id.1])
            } else {
                None
            }
        } else {
            let commands = &self.categories[self.category_index].commands;
            if self.command_index < commands.len() {
                Some(&commands[self.command_index])
            } else {
                None
            }
        }
    }

    /// The number of commands in the built-in catalogue.
    pub fn total_commands() -> (r: usize)
        ensures
            r == COMMAND_COUNT,
    {
        let all = categories();
        let mut total: usize = 0;
        let mut i: usize = 0;
        while i < all.len()
            invariant
                i <= all@.len(),
                catalog_size(all@) == COMMAND_COUNT,
                total == catalog_size(all@.subrange(0, i as int)),
            decreases all@.len() - i,
        {
            proof {
                lemma_catalog_size_prefix(all@, i + 1);
                assert(all@.subrange(0, i + 1).drop_last() =~= all@.subrange(0, i as int));
            }
            total = total + all[i].commands.len();
            i = i + 1;
        }
        assert(all@.subrange(0, all@.len() as int) =~= all@);
        total
    }

    /// Moves the selection one command down, wrapping from the last to the first.
    pub fn select_next_command(&mut self)
        requires
            old(self).can_show(),
        ensures
            *final(self) == (App {
                command_index: next_index(old(self).command_index, old(self).visible().len()),
                ..*old(self)
            }),
    {
        let length = self.visible_len();
        if length == 0 {
            return;
        }
        self.command_index = wrap_next(self.command_index, length);
    }

    /// Moves the selection one command up, wrapping from the first to the last.
    pub fn select_previous_command(&mut self)
        requires
            old(self).can_show(),
        ensures
            *final(self) == (App {
                command_index: previous_index(old(self).command_index, old(self).visible().len()),
                ..*old(self)
            }),
    {
        let length = self.visible_len();
        if length == 0 {
            return;
        }
        self.command_index = wrap_previous(self.command_index, length);
    }

    /// Selects the next category, wrapping at the end, with its first command,
    /// and leaves the search.
    pub fn select_next_category(&mut self)
        requires
            old(self).categories@.len() > 0,
        ensures
            final(self).category_index < final(self).categories@.len(),
            old(self).valid() ==> final(self).valid(),
            old(self).wf() ==> final(self).wf(),
            search_exited(
                App {
                    category_index: next_index(
                        old(self).category_index,
                        old(self).categories@.len(),
                    ),
                    command_index: 0,
                    ..*old(self)
                },
                *final(self),
            ),
    {
        self.category_index = wrap_next(self.category_index, self.categories.len());
        self.command_index = 0;
        self.exit_search();
    }

    /// Selects the previous category, wrapping at the start, with its first
    /// command, and leaves the search.
    pub fn select_previous_category(&mut self)
        requires
            old(self).categories@.len() > 0,
        ensures
            final(self).category_index < final(self).categories@.len(),
            old(self).valid() ==> final(self).valid(),
            old(self).wf() ==> final(self).wf(),
            search_exited(
                App {
                    category_index: previous_index(
                        old(self).category_index,
                        old(self).categories@.len(),
                    ),
                    command_index: 0,
                    ..*old(self)
                },
                *final(self),
            ),
    {
        self.category_index = wrap_previous(self.category_index, self.categories.len());
        self.command_index = 0;
        self.exit_search();
    }

    /// Enters search mode with the list focused.
    pub fn enter_search(&mut self)
        ensures
            *final(self) == (App { mode: Mode::Search, active_pane: Pane::List, ..*old(self) }),
    {
        self.mode = Mode::Search;
        self.active_pane = Pane::List;
    }

    /// Leaves search mode, clearing the query and the results.
    pub fn exit_search(&mut self)
        ensures
            old(self).valid() ==> final(self).valid(),
            old(self).wf() ==> final(self).wf(),
            search_exited(*old(self), *final(self)),
    {
        if self.mode == Mode::Search {
            self.mode = Mode::Normal;
            self.search_query = String::new();
            self.search_results.clear();
            self.command_index = 0;
        }
    }

    /// Adds a character at the end of the query and searches again.
    pub fn append_search_character(&mut self, character: char)
        requires
            catalog_fits(old(self).categories@),
        ensures
            old(self).valid() ==> final(self).wf(),
            query_set(*old(self), *final(self), old(self).search_query@.push(character)),
    {
        push_char(&mut self.search_query, character);
        self.update_search_results();
    }

    /// Removes the last character of the query, if any, and searches again.
    pub fn remove_search_character(&mut self)
        requires
            catalog_fits(old(self).categories@),
        ensures
            old(self).valid() ==> final(self).wf(),
            query_set(
                *old(self),
                *final(self),
                if old(self).search_query@.len() > 0 {
                    old(self).search_query@.drop_last()
                } else {
                    old(self).search_query@
                },
            ),
    {
        let _ = pop_char(&mut self.search_query);
        self.update_search_results();
    }

    fn update_search_results(&mut self)
        requires
            catalog_fits(old(self).categories@),
        ensures
            old(self).valid() ==> final(self).wf(),
            query_set(*old(self), *final(self), old(self).search_query@),
    {
        let query_lower = to_lowercase(self.search_query.as_str());
        let query = chars_of(query_lower.as_str());
        let results = find_commands(&self.categories, &query);
        // The length of a vector fits in a `usize`; the invariant records it.
        let found: usize = results.len();
        assert(results@.len() == found);
        proof {
            lemma_search_hits_exact(self.categories@, query@);
            law_hits_at_most_catalog(self.categories@, query@);
        }
        self.search_results = results;
        self.command_index = 0;
    }

    /// Returns the clipboard text of the selected command, if there is one,
    /// and starts the copy feedback; with no selected command, nothing changes.
    pub fn extract_command_for_clipboard(&mut self) -> (r: Option<String>)
        requires
            old(self).can_show(),
        ensures
            match r {
                None => old(self).selection() is None && *final(self) == *old(self),
                Some(text) => old(self).selection() matches Some(command) && copied(
                    *old(self),
                    *final(self),
                    command,
                    text@,
                ),
            },
    {
        let selected: Option<Command> = match self.selected_command() {
            Some(command) => Some(*command),
            None => None,
        };
        match selected {
            None => None,
            Some(command) => {
                let cleaned = clipboard_command(command.cmd);
                self.copy_feedback_timer = COPY_FEEDBACK_TICKS;
                let mut message = String::from_str("copied: ");
                message.append(command.cmd);
                self.status_message = Some(message);
                Some(cleaned)
            },
        }
    }

    /// One tick of the clock: counts the copy feedback down, and clears the
    /// status message when it reaches zero.
    pub fn update_timers(&mut self)
        ensures
            *final(self) == after_tick(*old(self)),
    {
        if self.copy_feedback_timer > 0 {
            self.copy_feedback_timer = self.copy_feedback_timer - 1;
            if self.copy_feedback_timer == 0 {
                self.status_message = None;
            }
        }
    }
}

/// `i + 1` modulo `n`.
fn wrap_next(i: usize, n: usize) -> (r: usize)
    requires
        n > 0,
    ensures
        r == next_index(i, n as nat),
{
    proof {
        lemma_wrap_next(i as int, n as int);
    }
    let j = i % n;
    if j + 1 == n {
        0
    } else {
        j + 1
    }
}

/// `i + n - 1` modulo `n`.
fn wrap_previous(i: usize, n: usize) -> (r: usize)
    requires
        n > 0,
    ensures
        r == previous_index(i, n as nat),
{
    proof {
        lemma_wrap_previous(i as int, n as int);
    }
    let j = i % n;
    if j == 0 {
        n - 1
    } else {
        j - 1
    }
}

proof fn lemma_wrap_next(i: int, n: int)
    requires
        n > 0,
        i >= 0,
    ensures
        (i + 1) % n == if i % n + 1 == n { 0 } else { i % n + 1 },
{
    vstd::arithmetic::div_mod::lemma_fundamental_div_mod(i, n);
    let q = i / n;
    let r = i % n;
    assert(n * q == q * n) by (nonlinear_arith);
    if r + 1 == n {
        assert((q + 1) * n == q * n + n) by (nonlinear_arith);
        vstd::arithmetic::div_mod::lemma_fundamental_div_mod_converse(i + 1, n, q + 1, 0);
    } else {
        vstd::arithmetic::div_mod::lemma_fundamental_div_mod_converse(i + 1, n, q, r + 1);
    }
}

proof fn lemma_wrap_previous(i: int, n: int)
    requires
        n > 0,
        i >= 0,
    ensures
        (i + n - 1) % n == if i % n == 0 { n - 1 } else { i % n - 1 },
{
    vstd::arithmetic::div_mod::lemma_fundamental_div_mod(i, n);
    let q = i / n;
    let r = i % n;
    assert(n * q == q * n) by (nonlinear_arith);
    if r == 0 {
        vstd::arithmetic::div_mod::lemma_fundamental_div_mod_converse(i + n - 1, n, q, n - 1);
    } else {
        assert((q + 1) * n == q * n + n) by (nonlinear_arith);
        vstd::arithmetic::div_mod::lemma_fundamental_div_mod_converse(i + n - 1, n, q + 1, r - 1);
    }
}

/// A prefix of a catalogue has no more commands than the whole.
proof fn lemma_catalog_size_prefix(categories: Seq<Category>, i: int)
    requires
        0 <= i <= categories.len(),
    ensures
        catalog_size(categories.subrange(0, i)) <= catalog_size(categories),
    decreases categories.len(),
{
    if i < categories.len() {
        lemma_catalog_size_prefix(categories.drop_last(), i);
        assert(categories.drop_last().subrange(0, i) =~= categories.subrange(0, i));
    } else {
        assert(categories.subrange(0, i) =~= categories);
    }
}

} // verus!
