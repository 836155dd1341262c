//! Properties of the browser that span several operations.

use vstd::prelude::*;
use crate::app::{
    after_tick, after_ticks, next_index, previous_index, query_set, search_exited, App, Mode, Pane,
    COPY_FEEDBACK_TICKS,
};
use crate::keys::{
    category_back, category_forward, key_effect, moved_down, moved_up, KeyCode, KeyInput,
    Action,
};
use crate::data::{catalog_fits, catalog_size, Category, Command};
use crate::search::{
    command_at, command_matches, law_empty_query_finds_all, law_hits_at_most_catalog,
    lemma_search_hits_exact, search_hits, valid_id,
};
use vstd::utf8::is_ascii_chars;
use crate::view::{argument_tokens, first_space, lines_of, split_at_char, strip_cr, token_kind, TokenKind};
use crate::text::{
    apply_rules, ascii_lower_char, ascii_lowercase, clipboard_text, contains_seq, lowercase, occurs_at, placeholder_rules,
    replace_all,
};

verus! {

/// The selection is on a visible command, or, with nothing visible, at the
/// top; and a query is only kept while in search mode.
pub open spec fn selection_in_view(a: App) -> bool {
    &&& a.mode != Mode::Search ==> a.search_query@.len() == 0
    &&& a.command_index < a.visible().len() || a.command_index == 0
}

proof fn lemma_next_index_bound(i: usize, n: nat)
    requires
        n > 0,
    ensures
        next_index(i, n) < n,
        previous_index(i, n) < n,
{
}

/// Moving the selection down and then up again returns to the same state,
/// when the selection was on a visible command.
pub proof fn law_down_then_up(a: App, b: App, c: App)
    requires
        a.wf(),
        a.command_index < a.visible().len(),
        moved_down(a, b),
        moved_up(b, c),
    ensures
        c == a,
{
    let n = a.visible().len() as int;
    let i = a.command_index as int;
    assert(b.visible() == a.visible());
    if i + 1 < n {
        vstd::arithmetic::div_mod::lemma_small_mod((i + 1) as nat, n as nat);
        assert(b.command_index == i + 1);
        vstd::arithmetic::div_mod::lemma_mod_add_multiples_vanish(i, n);
        vstd::arithmetic::div_mod::lemma_small_mod(i as nat, n as nat);
        assert((i + 1 + n - 1) % n == i);
        assert(c.command_index == i);
    } else {
        vstd::arithmetic::div_mod::lemma_mod_self_0(n);
        assert(b.command_index == 0);
        vstd::arithmetic::div_mod::lemma_small_mod((n - 1) as nat, n as nat);
        assert(c.command_index == n - 1);
    }
    assert(c == a);
}

/// Moving the selection up and then down again returns to the same state,
/// when the selection was on a visible command.
pub proof fn law_up_then_down(a: App, b: App, c: App)
    requires
        a.wf(),
        a.command_index < a.visible().len(),
        moved_up(a, b),
        moved_down(b, c),
    ensures
        c == a,
{
    let n = a.visible().len() as int;
    let i = a.command_index as int;
    assert(b.visible() == a.visible());
    if i == 0 {
        vstd::arithmetic::div_mod::lemma_small_mod((n - 1) as nat, n as nat);
        assert(b.command_index == n - 1);
        vstd::arithmetic::div_mod::lemma_mod_self_0(n);
        assert(c.command_index == 0);
    } else {
        vstd::arithmetic::div_mod::lemma_mod_add_multiples_vanish(i - 1, n);
        vstd::arithmetic::div_mod::lemma_small_mod((i - 1) as nat, n as nat);
        assert((i + n - 1) % n == i - 1);
        assert(b.command_index == i - 1);
        vstd::arithmetic::div_mod::lemma_small_mod(i as nat, n as nat);
        assert(c.command_index == i);
    }
    assert(c == a);
}

/// Selecting the next category and then the previous one comes back to the
/// same category, with its first command selected and the search left; from
/// normal mode at the first command, it comes back to the same state.
pub proof fn law_category_round_trip(a: App, b: App, c: App)
    requires
        a.wf(),
        category_forward(a, b),
        category_back(b, c),
    ensures
        c.category_index == a.category_index,
        c.command_index == 0,
        c.mode != Mode::Search,
        a.mode != Mode::Search && a.command_index == 0 ==> c == a,
{
    let n = a.categories@.len() as int;
    let i = a.category_index as int;
    vstd::arithmetic::div_mod::lemma_small_mod(i as nat, n as nat);
    if i + 1 < n {
        vstd::arithmetic::div_mod::lemma_small_mod((i + 1) as nat, n as nat);
        vstd::arithmetic::div_mod::lemma_mod_add_multiples_vanish(i, n);
    } else {
        vstd::arithmetic::div_mod::lemma_mod_self_0(n);
        vstd::arithmetic::div_mod::lemma_small_mod((n - 1) as nat, n as nat);
    }
}

/// Entering the search and leaving it again ends in normal mode with an empty
/// query, no results, the list focused, the first command selected and the
/// same category.
pub proof fn law_enter_then_exit_search(a: App, b: App, c: App)
    requires
        a.wf(),
        b == (App { mode: Mode::Search, active_pane: Pane::List, ..a }),
        search_exited(b, c),
    ensures
        c.mode == Mode::Normal,
        c.active_pane == Pane::List,
        c.search_query@.len() == 0,
        c.search_results@.len() == 0,
        c.command_index == 0,
        c.category_index == a.category_index,
        c.copy_feedback_timer == a.copy_feedback_timer,
        c.status_message == a.status_message,
{
}

/// Typing a character into the search and deleting it again gives back the
/// query, with the results that the query finds and the first command
/// selected; for a non-empty query that is the state from before, but for
/// the selection.
pub proof fn law_type_then_delete(a: App, b: App, c: App, ch: char)
    requires
        a.wf(),
        query_set(a, b, a.search_query@.push(ch)),
        query_set(b, c, b.search_query@.drop_last()),
    ensures
        c.search_query@ == a.search_query@,
        c.search_results@ == search_hits(a.categories@, lowercase(a.search_query@)),
        c.command_index == 0,
        a.search_query@.len() > 0 ==> c.search_results@ == a.search_results@,
        c == (App {
            command_index: 0,
            search_query: c.search_query,
            search_results: c.search_results,
            ..a
        }),
{
    assert(a.search_query@.push(ch).drop_last() =~= a.search_query@);
}

/// While a search is in progress, the commands on screen are exactly the
/// commands that the lower-case query finds, each once, in catalogue order.
pub proof fn law_search_shows_matches(a: App)
    requires
        a.wf(),
        a.searching(),
    ensures
        forall|j: int|
            0 <= j < a.search_results@.len() ==> valid_id(a.categories@, #[trigger] a.search_results@[j])
                && a.visible()[j] == command_at(a.categories@, a.search_results@[j])
                && command_matches(a.visible()[j], lowercase(a.search_query@)),
        forall|id: (usize, usize)|
            valid_id(a.categories@, id) && command_matches(
                command_at(a.categories@, id),
                lowercase(a.search_query@),
            ) ==> #[trigger] a.search_results@.contains(id),
        a.visible().len() == a.search_results@.len(),
{
    lemma_search_hits_exact(a.categories@, lowercase(a.search_query@));
}

/// After `n` ticks the copy feedback timer has counted down by `n`, stopping
/// at zero, and the status message is gone exactly when the timer ran out.
pub proof fn law_feedback_countdown(a: App, n: nat)
    ensures
        after_ticks(a, n).copy_feedback_timer == (if n >= a.copy_feedback_timer {
            0
        } else {
            a.copy_feedback_timer - n
        }),
        after_ticks(a, n).status_message == (if a.copy_feedback_timer > 0 && n
            >= a.copy_feedback_timer {
            None
        } else {
            a.status_message
        }),
        after_ticks(a, n) == (App {
            copy_feedback_timer: after_ticks(a, n).copy_feedback_timer,
            status_message: after_ticks(a, n).status_message,
            ..a
        }),
    decreases n,
{
    if n > 0 {
        law_feedback_countdown(after_tick(a), (n - 1) as nat);
    }
}

/// The feedback of a copy lasts `COPY_FEEDBACK_TICKS` ticks: the status
/// message stays for fewer ticks and is gone after that many.
pub proof fn law_copy_feedback_expires(a: App, n: nat)
    requires
        a.copy_feedback_timer == COPY_FEEDBACK_TICKS,
    ensures
        n < COPY_FEEDBACK_TICKS ==> after_ticks(a, n).status_message == a.status_message,
        n >= COPY_FEEDBACK_TICKS ==> after_ticks(a, n).status_message is None
            && after_ticks(a, n).copy_feedback_timer == 0,
{
    law_feedback_countdown(a, n);
}

/// A text in which `from` does not occur is left as it is by the replacement.
pub proof fn law_replace_without_occurrence(s: Seq<char>, from: Seq<char>, to: Seq<char>)
    requires
        !contains_seq(s, from),
    ensures
        replace_all(s, from, to) == s,
    decreases s.len(),
{
    if s.len() > 0 {
        let rest = s.subrange(1, s.len() as int);
        assert(!occurs_at(s, from, 0));
        assert forall|i: int| !occurs_at(rest, from, i) by {
            if occurs_at(rest, from, i) {
                assert(s.subrange(i + 1, i + 1 + from.len()) =~= rest.subrange(i, i + from.len()));
                assert(occurs_at(s, from, i + 1));
            }
        }
        law_replace_without_occurrence(rest, from, to);
        assert(seq![s[0]] + rest =~= s);
    }
}

proof fn lemma_rules_without_occurrence(s: Seq<char>, rules: Seq<(Seq<char>, Seq<char>)>)
    requires
        forall|i: int| 0 <= i < rules.len() ==> !contains_seq(s, (#[trigger] rules[i]).0),
    ensures
        apply_rules(s, rules) == s,
    decreases rules.len(),
{
    if rules.len() > 0 {
        law_replace_without_occurrence(s, rules[0].0, rules[0].1);
        let rest = rules.subrange(1, rules.len() as int);
        assert forall|i: int| 0 <= i < rest.len() implies !contains_seq(s, (#[trigger] rest[i]).0) by {
            assert(rest[i] == rules[i + 1]);
        }
        lemma_rules_without_occurrence(s, rest);
    }
}

/// A command line in which no placeholder pattern occurs is copied exactly as
/// it is written.
pub proof fn law_plain_command_copied_verbatim(cmd: Seq<char>)
    requires
        forall|i: int|
            0 <= i < placeholder_rules().len() ==> !contains_seq(cmd, (#[trigger] placeholder_rules()[i]).0),
    ensures
        clipboard_text(cmd) == cmd,
{
    lemma_rules_without_occurrence(cmd, placeholder_rules());
}

/// Every key keeps the selection on a visible command (or at the top of an
/// empty list), and keeps the query empty outside search mode.
pub proof fn law_key_keeps_selection_in_view(pre: App, post: App, key: KeyInput, action: Action)
    requires
        pre.wf(),
        post.wf(),
        selection_in_view(pre),
        key_effect(pre, post, key, action),
    ensures
        selection_in_view(post),
{
    if pre.visible().len() > 0 {
        lemma_next_index_bound(pre.command_index, pre.visible().len());
    }
    if post.mode == Mode::Search && post.search_query@.len() > 0 {
        lemma_search_hits_exact(post.categories@, lowercase(post.search_query@));
    }
}

/// The clock keeps the selection in view.
pub proof fn law_tick_keeps_selection_in_view(a: App)
    requires
        selection_in_view(a),
    ensures
        selection_in_view(after_tick(a)),
{
}

/// Tab twice gives the focus back to the pane that had it.
pub proof fn law_tab_twice(a: App, b: App, c: App, x: Action, y: Action)
    requires
        a.wf(),
        a.mode == Mode::Normal,
        key_effect(a, b, KeyInput { code: KeyCode::Tab, ctrl: false }, x),
        key_effect(b, c, KeyInput { code: KeyCode::Tab, ctrl: false }, y),
    ensures
        c == a,
{
}

/// Opening the help with `?` and closing it with Esc comes back to the state
/// from before.
pub proof fn law_help_round_trip(a: App, b: App, c: App, x: Action, y: Action)
    requires
        a.wf(),
        a.mode == Mode::Normal,
        key_effect(a, b, KeyInput { code: KeyCode::Char('?'), ctrl: false }, x),
        key_effect(b, c, KeyInput { code: KeyCode::Esc, ctrl: false }, y),
    ensures
        c == a,
{
}

/// In the list, `G` selects the last command, and moving down from there wraps
/// to the first.
pub proof fn law_last_then_down_wraps(a: App, b: App, c: App, x: Action, y: Action)
    requires
        a.wf(),
        a.mode == Mode::Normal,
        a.active_pane == Pane::List,
        a.visible().len() > 0,
        key_effect(a, b, KeyInput { code: KeyCode::Char('G'), ctrl: false }, x),
        key_effect(b, c, KeyInput { code: KeyCode::Char('j'), ctrl: false }, y),
    ensures
        b.command_index == a.visible().len() - 1,
        c.command_index == 0,
{
    vstd::arithmetic::div_mod::lemma_mod_self_0(a.visible().len() as int);
    assert(b.visible() == a.visible());
}

/// The state after moving the selection down `n` times.
pub open spec fn moved_down_times(a: App, n: nat) -> App
    decreases n,
{
    if n == 0 {
        a
    } else {
        let b = moved_down_times(a, (n - 1) as nat);
        App { command_index: next_index(b.command_index, b.visible().len()), ..b }
    }
}

/// Moving down `n` times from a visible command selects the command `n`
/// places further, counting round the list; after as many moves as there are
/// visible commands the selection is back where it started.
pub proof fn law_down_cycles(a: App, n: nat)
    requires
        a.wf(),
        a.command_index < a.visible().len(),
    ensures
        moved_down_times(a, n) == (App {
            command_index: ((a.command_index + n) % (a.visible().len() as int)) as usize,
            ..a
        }),
        moved_down_times(a, a.visible().len()) == a,
{
    lemma_down_cycles_step(a, n);
    lemma_down_cycles_full(a);
}

proof fn lemma_down_cycles_full(a: App)
    requires
        a.wf(),
        a.command_index < a.visible().len(),
    ensures
        moved_down_times(a, a.visible().len()) == a,
{
    let len = a.visible().len();
    lemma_down_cycles_step(a, len);
    vstd::arithmetic::div_mod::lemma_mod_add_multiples_vanish(a.command_index as int, len as int);
    vstd::arithmetic::div_mod::lemma_small_mod(a.command_index as nat, len);
}

proof fn lemma_down_cycles_step(a: App, n: nat)
    requires
        a.wf(),
        a.command_index < a.visible().len(),
    ensures
        moved_down_times(a, n) == (App {
            command_index: ((a.command_index + n) % (a.visible().len() as int)) as usize,
            ..a
        }),
    decreases n,
{
    let len = a.visible().len() as int;
    let i = a.command_index as int;
    if n > 0 {
        lemma_down_cycles_step(a, (n - 1) as nat);
        let b = moved_down_times(a, (n - 1) as nat);
        assert(b.visible() == a.visible());
        let j = (i + n - 1) % len;
        vstd::arithmetic::div_mod::lemma_mod_bound(i + n - 1, len);
        vstd::arithmetic::div_mod::lemma_add_mod_noop_right(1, i + n - 1, len);
        assert((j + 1) % len == (i + n) % len);
    } else {
        vstd::arithmetic::div_mod::lemma_small_mod(i as nat, len as nat);
    }
}

/// While a query is typed, the search lists at most as many commands as the
/// catalogue has.
pub proof fn law_results_at_most_total(a: App)
    requires
        a.wf(),
        a.search_query@.len() > 0,
    ensures
        a.search_results@.len() <= catalog_size(a.categories@),
{
    law_hits_at_most_catalog(a.categories@, lowercase(a.search_query@));
}

/// Deleting the only character of the query lists every command of the
/// catalogue as results, while the screen falls back to the selected
/// category with its first command selected.
pub proof fn law_delete_last_character(a: App, b: App)
    requires
        a.wf(),
        a.search_query@.len() == 1,
        query_set(a, b, a.search_query@.drop_last()),
    ensures
        b.search_query@.len() == 0,
        b.search_results@.len() == catalog_size(b.categories@),
        forall|id: (usize, usize)|
            valid_id(b.categories@, id) ==> #[trigger] b.search_results@.contains(id),
        b.command_index == 0,
        b.visible() == b.categories@[b.category_index as int].commands@,
{
    let empty = a.search_query@.drop_last();
    assert(empty =~= Seq::<char>::empty());
    assert(ascii_lowercase(empty) =~= Seq::<char>::empty());
    law_empty_query_finds_all(a.categories@);
}

proof fn lemma_contains_prefix(s: Seq<char>, p: Seq<char>, d: char)
    requires
        contains_seq(s, p.push(d)),
    ensures
        contains_seq(s, p),
{
    let i = choose|i: int| #[trigger] occurs_at(s, p.push(d), i);
    assert(s.subrange(i, i + p.len()) =~= p.push(d).subrange(0, p.len() as int));
    assert(p.push(d).subrange(0, p.len() as int) =~= p);
    assert(occurs_at(s, p, i));
}

/// For ASCII text, typing one more character only narrows the search: every
/// command found afterwards is found by the shorter query.
pub proof fn law_typing_narrows(a: App, b: App, ch: char)
    requires
        catalog_fits(a.categories@),
        is_ascii_chars(a.search_query@.push(ch)),
        query_set(a, b, a.search_query@.push(ch)),
    ensures
        forall|j: int|
            0 <= j < b.search_results@.len() ==> search_hits(
                a.categories@,
                ascii_lowercase(a.search_query@),
            ).contains(#[trigger] b.search_results@[j]),
{
    let q = a.search_query@;
    let longer = ascii_lowercase(q.push(ch));
    let shorter = ascii_lowercase(q);
    assert(longer =~= shorter.push(ascii_lower_char(ch)));
    lemma_search_hits_exact(a.categories@, longer);
    lemma_search_hits_exact(a.categories@, shorter);
    assert forall|j: int| 0 <= j < b.search_results@.len() implies search_hits(
        a.categories@,
        shorter,
    ).contains(#[trigger] b.search_results@[j]) by {
        let id = b.search_results@[j];
        let c = command_at(a.categories@, id);
        assert(search_hits(a.categories@, longer)[j] == id);
        if contains_seq(lowercase(c.cmd@), longer) {
            lemma_contains_prefix(lowercase(c.cmd@), shorter, ascii_lower_char(ch));
        } else {
            lemma_contains_prefix(lowercase(c.desc@), shorter, ascii_lower_char(ch));
        }
    }
}

/// For ASCII queries the search ignores the case of letters: two queries that
/// differ only in it find the same commands.
pub proof fn law_search_ignores_ascii_case(a: App, b: App, c: App, q1: Seq<char>, q2: Seq<char>)
    requires
        is_ascii_chars(q1),
        is_ascii_chars(q2),
        ascii_lowercase(q1) == ascii_lowercase(q2),
        query_set(a, b, q1),
        query_set(a, c, q2),
    ensures
        b.search_results@ == c.search_results@,
{
}

/// After an ASCII query, typing a letter in upper case or in lower case finds
/// the same commands, and either way the first command is selected.
pub proof fn law_letter_case_typed(a: App, b1: App, b2: App, c1: char, c2: char)
    requires
        is_ascii_chars(a.search_query@.push(c1)),
        is_ascii_chars(a.search_query@.push(c2)),
        ascii_lower_char(c1) == ascii_lower_char(c2),
        query_set(a, b1, a.search_query@.push(c1)),
        query_set(a, b2, a.search_query@.push(c2)),
    ensures
        b1.search_results@ == b2.search_results@,
        b1.command_index == 0,
        b2.command_index == 0,
{
    let q = a.search_query@;
    assert(ascii_lowercase(q.push(c1)) =~= ascii_lowercase(q.push(c2)));
    law_search_ignores_ascii_case(a, b1, b2, q.push(c1), q.push(c2));
}

/// The placeholders that the clipboard text leaves out: a space followed by
/// the placeholder, as the command lines write them.
pub open spec fn removable_placeholders() -> Seq<Seq<char>> {
    seq![
        " <name>"@,
        " <branch>"@,
        " <file>"@,
        " <message>"@,
        " <remote>"@,
        " <url>"@,
        " <commit>"@,
        " <path>"@,
        " <tag>"@,
        " <n>"@,
        " <pattern>"@,
        " <editor>"@,
        " <email>"@,
        " <alias>"@,
        " <cmd>"@,
        " <directory>"@,
        " <old>"@,
        " <new>"@,
        " <date>"@,
        " <stash>"@,
        " <msg>"@,
        " <src>"@,
        " <dst>"@,
    ]
}

/// `s` has no `<`.
pub open spec fn free_of_angle(s: Seq<char>) -> bool {
    forall|i: int| 0 <= i < s.len() ==> s[i] != '<'
}

/// A space, `<`, a name without `<` or `>`, and `>`.
pub open spec fn placeholder_shape(p: Seq<char>) -> bool {
    &&& p.len() >= 3
    &&& p[0] == ' '
    &&& p[1] == '<'
    &&& p[p.len() - 1] == '>'
    &&& forall|i: int| 1 < i < p.len() - 1 ==> p[i] != '<' && p[i] != '>'
}

proof fn lemma_rule_literals()
    ensures
        placeholder_rules().len() == 31,
        forall|k: int|
            0 <= k < 23 ==> placeholder_shape((#[trigger] placeholder_rules()[k]).0)
                && placeholder_rules()[k].1.len() == 0,
        forall|k: int|
            0 <= k < placeholder_rules().len() ==> !free_of_angle(
                (#[trigger] placeholder_rules()[k]).0,
            ),
        forall|m: int| 0 <= m < 23 ==> #[trigger] removable_placeholders()[m] == placeholder_rules()[m].0,
        removable_placeholders().len() == 23,
{
    reveal_strlit(" <name>");
    reveal_strlit(" <branch>");
    reveal_strlit(" <file>");
    reveal_strlit(" <message>");
    reveal_strlit(" <remote>");
    reveal_strlit(" <url>");
    reveal_strlit(" <commit>");
    reveal_strlit(" <path>");
    reveal_strlit(" <tag>");
    reveal_strlit(" <n>");
    reveal_strlit(" <pattern>");
    reveal_strlit(" <editor>");
    reveal_strlit(" <email>");
    reveal_strlit(" <alias>");
    reveal_strlit(" <cmd>");
    reveal_strlit(" <directory>");
    reveal_strlit(" <old>");
    reveal_strlit(" <new>");
    reveal_strlit(" <date>");
    reveal_strlit(" <stash>");
    reveal_strlit(" <msg>");
    reveal_strlit(" <src>");
    reveal_strlit(" <dst>");
    reveal_strlit("\"<name>\"");
    reveal_strlit("\"<email>\"");
    reveal_strlit("\"<message>\"");
    reveal_strlit("\"<msg>\"");
    reveal_strlit("<branch1>");
    reveal_strlit("<branch2>");
    reveal_strlit("<commit1>");
    reveal_strlit("<commit2>");
    reveal_strlit("");
    assert forall|k: int| 0 <= k < placeholder_rules().len() implies !free_of_angle(
        (#[trigger] placeholder_rules()[k]).0,
    ) by {
        let r = placeholder_rules()[k].0;
        if k < 27 {
            assert(r[1] == '<');
        } else {
            assert(r[0] == '<');
        }
    }
}

proof fn lemma_no_angle_no_occurrence(w: Seq<char>, r: Seq<char>)
    requires
        free_of_angle(w),
        !free_of_angle(r),
    ensures
        !contains_seq(w, r),
{
    if contains_seq(w, r) {
        let i = choose|i: int| #[trigger] occurs_at(w, r, i);
        let k = choose|k: int| 0 <= k < r.len() && r[k] == '<';
        assert(w.subrange(i, i + r.len())[k] == r[k]);
        assert(w[i + k] == '<');
    }
}

proof fn lemma_placeholder_occurrence(w: Seq<char>, p: Seq<char>, r: Seq<char>, i: int)
    requires
        free_of_angle(w),
        placeholder_shape(p),
        placeholder_shape(r),
        occurs_at(w + p, r, i),
    ensures
        r == p,
        i == w.len(),
{
    let s = w + p;
    assert(s.subrange(i, i + r.len())[1] == r[1]);
    assert(s[i + 1] == '<');
    if i + 1 < w.len() {
        assert(s[i + 1] == w[i + 1]);
    }
    let q = i + 1 - w.len();
    assert(s[i + 1] == p[q]);
    assert(q == 1);
    let last = r.len() - 1;
    assert(s.subrange(i, i + r.len())[last] == r[last]);
    assert(p[last] == '>');
    assert(last == p.len() - 1);
    assert(r =~= p) by {
        assert forall|k: int| 0 <= k < r.len() implies r[k] == p[k] by {
            assert(s.subrange(i, i + r.len())[k] == r[k]);
        }
    }
}

proof fn lemma_remove_trailing_placeholder(w: Seq<char>, p: Seq<char>)
    requires
        free_of_angle(w),
        placeholder_shape(p),
    ensures
        replace_all(w + p, p, seq![]) == w,
    decreases w.len(),
{
    let s = w + p;
    if w.len() == 0 {
        assert(s =~= p);
        assert(p.subrange(0, p.len() as int) =~= p);
        assert(occurs_at(s, p, 0));
        assert(p.subrange(p.len() as int, p.len() as int) =~= Seq::<char>::empty());
        assert(replace_all(Seq::<char>::empty(), p, seq![]) =~= Seq::<char>::empty());
        assert(replace_all(s, p, seq![]) =~= seq![] + replace_all(
            s.subrange(p.len() as int, s.len() as int),
            p,
            seq![],
        ));
    } else {
        if occurs_at(s, p, 0) {
            assert(s.subrange(0, p.len() as int)[1] == p[1]);
            if w.len() > 1 {
                assert(s[1] == w[1]);
            } else {
                assert(s[1] == p[0]);
            }
        }
        let rest = w.drop_first();
        assert(s.subrange(1, s.len() as int) =~= rest + p);
        lemma_remove_trailing_placeholder(rest, p);
        assert(seq![s[0]] + rest =~= w);
    }
}

proof fn lemma_trailing_placeholder_rules(
    w: Seq<char>,
    p: Seq<char>,
    rules: Seq<(Seq<char>, Seq<char>)>,
    k: int,
    j: int,
)
    requires
        free_of_angle(w),
        placeholder_shape(p),
        0 <= k <= j < rules.len(),
        rules[j].0 == p,
        forall|m: int|
            k <= m <= j ==> placeholder_shape((#[trigger] rules[m]).0) && rules[m].1.len() == 0,
        forall|m: int| 0 <= m < rules.len() ==> !free_of_angle((#[trigger] rules[m]).0),
    ensures
        apply_rules(w + p, rules.subrange(k, rules.len() as int)) == w,
    decreases j - k,
{
    let s = w + p;
    let rest = rules.subrange(k, rules.len() as int);
    assert(rest[0] == rules[k]);
    assert(rest.subrange(1, rest.len() as int) =~= rules.subrange(k + 1, rules.len() as int));
    let tail = rules.subrange(k + 1, rules.len() as int);
    if contains_seq(s, rules[k].0) {
        let i = choose|i: int| #[trigger] occurs_at(s, rules[k].0, i);
        lemma_placeholder_occurrence(w, p, rules[k].0, i);
        assert(rules[k].1 =~= Seq::<char>::empty());
        lemma_remove_trailing_placeholder(w, p);
        assert forall|m: int| 0 <= m < tail.len() implies !contains_seq(w, (#[trigger] tail[m]).0) by {
            assert(tail[m] == rules[k + 1 + m]);
            lemma_no_angle_no_occurrence(w, tail[m].0);
        }
        lemma_rules_without_occurrence(w, tail);
    } else {
        if k == j {
            assert(s.subrange(w.len() as int, (w.len() + p.len()) as int) =~= p);
            assert(occurs_at(s, p, w.len() as int));
        }
        law_replace_without_occurrence(s, rules[k].0, rules[k].1);
        lemma_trailing_placeholder_rules(w, p, rules, k + 1, j);
    }
}

/// A placeholder of the removable kind at the end of a command line is left
/// out of the clipboard text: the text before it, when it has no `<`, is
/// copied as it is, without the placeholder.
pub proof fn law_removable_placeholder_dropped(w: Seq<char>, p: Seq<char>)
    requires
        free_of_angle(w),
        removable_placeholders().contains(p),
    ensures
        clipboard_text(w + p) == w,
{
    lemma_rule_literals();
    let m = choose|m: int| 0 <= m < removable_placeholders().len() && removable_placeholders()[m] == p;
    assert(placeholder_rules()[m].0 == p);
    assert(placeholder_rules().subrange(0, 31) =~= placeholder_rules());
    lemma_trailing_placeholder_rules(w, p, placeholder_rules(), 0, m);
}

/// A query finds a command of the catalogue exactly when it occurs in the
/// lower-case form of the command line or in the lower-case form of the
/// description, whatever else the command holds.
pub proof fn law_found_by_line_or_description(categories: Seq<Category>, query: Seq<char>)
    requires
        catalog_fits(categories),
    ensures
        forall|c: Command|
            #[trigger] command_matches(c, query) == (contains_seq(lowercase(c.cmd@), query)
                || contains_seq(lowercase(c.desc@), query)),
        forall|id: (usize, usize)|
            valid_id(categories, id) ==> (#[trigger] search_hits(categories, query).contains(id) == (
            contains_seq(lowercase(command_at(categories, id).cmd@), query) || contains_seq(
                lowercase(command_at(categories, id).desc@),
                query,
            ))),
{
    lemma_search_hits_exact(categories, query);
    assert forall|id: (usize, usize)| valid_id(categories, id) implies (
    #[trigger] search_hits(categories, query).contains(id) == (contains_seq(
        lowercase(command_at(categories, id).cmd@),
        query,
    ) || contains_seq(lowercase(command_at(categories, id).desc@), query))) by {
        if search_hits(categories, query).contains(id) {
            let j = choose|j: int|
                0 <= j < search_hits(categories, query).len() && search_hits(categories, query)[j]
                    == id;
            assert(command_matches(command_at(categories, search_hits(categories, query)[j]), query));
        }
    }
}

/// The selection is the visible command at the selected position, for every
/// position in the list, the last one included; beyond the list there is none.
pub proof fn law_selection_is_visible_entry(a: App)
    requires
        a.valid(),
    ensures
        a.command_index < a.visible().len() ==> a.selection() == Some(
            a.visible()[a.command_index as int],
        ),
        a.command_index >= a.visible().len() ==> a.selection() is None,
        a.visible().len() > 0 ==> (App { command_index: (a.visible().len() - 1) as usize, ..a }).selection()
            == Some(a.visible().last()),
{
    lemma_visible_fits(a);
}

proof fn lemma_visible_fits(a: App)
    requires
        a.valid(),
    ensures
        a.visible().len() <= usize::MAX,
{
    if !a.searching() {
        assert(a.categories@[a.category_index as int].commands@.len() <= usize::MAX);
    }
}

/// The list has the focus: in search mode, or in normal mode on the list pane.
pub open spec fn list_focused(a: App) -> bool {
    a.mode == Mode::Search || (a.mode == Mode::Normal && a.active_pane == Pane::List)
}

/// Up (or `k`) with the list focused moves the selection one place up,
/// wrapping from the first visible command to the last, and changes nothing
/// else.
pub proof fn law_up_key_moves_up(pre: App, post: App, key: KeyInput, action: Action)
    requires
        list_focused(pre),
        key.code == KeyCode::Up || key.code == KeyCode::Char('k'),
        key_effect(pre, post, key, action),
    ensures
        action is Continue,
        post == (App {
            command_index: if pre.visible().len() == 0 {
                pre.command_index
            } else {
                ((pre.command_index + pre.visible().len() - 1) % (pre.visible().len() as int)) as usize
            },
            ..pre
        }),
{
}

/// Down (or `j`) with the list focused moves the selection one place down,
/// wrapping from the last visible command to the first, and changes nothing
/// else.
pub proof fn law_down_key_moves_down(pre: App, post: App, key: KeyInput, action: Action)
    requires
        list_focused(pre),
        key.code == KeyCode::Down || key.code == KeyCode::Char('j'),
        key_effect(pre, post, key, action),
    ensures
        action is Continue,
        post == (App {
            command_index: if pre.visible().len() == 0 {
                pre.command_index
            } else {
                ((pre.command_index + 1) % (pre.visible().len() as int)) as usize
            },
            ..pre
        }),
{
}

/// With the list focused, Down and then Up come back to the same state when
/// the selection is on a visible command.
pub proof fn law_down_then_up_keys(a: App, b: App, c: App, x: Action, y: Action)
    requires
        a.wf(),
        list_focused(a),
        a.command_index < a.visible().len(),
        key_effect(a, b, KeyInput { code: KeyCode::Down, ctrl: false }, x),
        key_effect(b, c, KeyInput { code: KeyCode::Up, ctrl: false }, y),
    ensures
        c == a,
{
    law_down_key_moves_down(a, b, KeyInput { code: KeyCode::Down, ctrl: false }, x);
    assert(list_focused(b));
    law_up_key_moves_up(b, c, KeyInput { code: KeyCode::Up, ctrl: false }, y);
    assert(moved_down(a, b));
    assert(moved_up(b, c));
    law_down_then_up(a, b, c);
}

/// In normal mode, whichever pane has the focus, `G` selects the last visible
/// command and `g` the first, and nothing else changes.
pub proof fn law_first_and_last_keys(pre: App, post: App, key: KeyInput, action: Action)
    requires
        pre.valid(),
        pre.mode == Mode::Normal,
        key.code == KeyCode::Char('G') || key.code == KeyCode::Char('g'),
        key_effect(pre, post, key, action),
    ensures
        action is Continue,
        key.code == KeyCode::Char('G') && pre.visible().len() > 0 ==> post.command_index
            == pre.visible().len() - 1,
        key.code == KeyCode::Char('G') && pre.visible().len() == 0 ==> post.command_index
            == pre.command_index,
        key.code == KeyCode::Char('g') ==> post.command_index == 0,
        post == (App { command_index: post.command_index, ..pre }),
{
    lemma_visible_fits(pre);
}

/// The placeholders that the clipboard text fills in, with their text.
pub open spec fn filled_placeholders() -> Seq<(Seq<char>, Seq<char>)> {
    seq![
        ("\"<name>\""@, "\"Your Name\""@),
        ("\"<email>\""@, "\"you@email.com\""@),
        ("\"<message>\""@, "\"your message\""@),
        ("\"<msg>\""@, "\"your message\""@),
        ("<branch1>"@, "main"@),
        ("<branch2>"@, "feature"@),
        ("<commit1>"@, "HEAD~1"@),
        ("<commit2>"@, "HEAD"@),
    ]
}

/// A quote, `<`, a name without `<` or `>`, `>` and a quote.
#[verifier::opaque]
pub open spec fn quoted_shape(p: Seq<char>) -> bool {
    &&& p.len() >= 4
    &&& p[0] == '"'
    &&& p[1] == '<'
    &&& p[p.len() - 2] == '>'
    &&& p[p.len() - 1] == '"'
    &&& forall|i: int| 1 < i < p.len() - 2 ==> p[i] != '<' && p[i] != '>'
}

proof fn lemma_fill_literals()
    ensures
        placeholder_rules().len() == 31,
        forall|k: int|
            23 <= k < 27 ==> quoted_shape((#[trigger] placeholder_rules()[k]).0) && free_of_angle(
                placeholder_rules()[k].1,
            ),
        forall|m: int| 0 <= m < 8 ==> #[trigger] filled_placeholders()[m] == placeholder_rules()[23 + m],
        filled_placeholders().len() == 8,
        placeholder_rules()[23].0.len() == 8,
        placeholder_rules()[24].0.len() == 9,
        placeholder_rules()[25].0.len() == 11,
        placeholder_rules()[26].0.len() == 7,
{
    reveal(quoted_shape);
    reveal_strlit("\"<name>\"");
    reveal_strlit("\"<email>\"");
    reveal_strlit("\"<message>\"");
    reveal_strlit("\"<msg>\"");
    reveal_strlit("\"Your Name\"");
    reveal_strlit("\"you@email.com\"");
    reveal_strlit("\"your message\"");
}

proof fn lemma_quoted_occurrence(w: Seq<char>, q: Seq<char>, r: Seq<char>, i: int)
    requires
        free_of_angle(w),
        quoted_shape(q),
        placeholder_shape(r) || quoted_shape(r),
        occurs_at(w + q, r, i),
    ensures
        quoted_shape(r),
        r == q,
{
    reveal(quoted_shape);
    let s = w + q;
    assert(s.subrange(i, i + r.len())[1] == r[1]);
    assert(s[i + 1] == '<');
    if i + 1 < w.len() {
        assert(s[i + 1] == w[i + 1]);
    }
    let d = i + 1 - w.len();
    assert(s[i + 1] == q[d]);
    assert(d == 1);
    assert(s.subrange(i, i + r.len())[0] == r[0]);
    assert(s[i] == q[0]);
    let gt = r.len() - 2;
    assert(s.subrange(i, i + r.len())[gt] == r[gt]);
    assert(q[gt] == '>');
    assert(gt == q.len() - 2);
    assert(r =~= q) by {
        assert forall|k: int| 0 <= k < r.len() implies r[k] == q[k] by {
            assert(s.subrange(i, i + r.len())[k] == r[k]);
        }
    }
}

proof fn lemma_replace_trailing_quoted(w: Seq<char>, q: Seq<char>, fill: Seq<char>)
    requires
        free_of_angle(w),
        quoted_shape(q),
    ensures
        replace_all(w + q, q, fill) == w + fill,
    decreases w.len(),
{
    reveal(quoted_shape);
    let s = w + q;
    if w.len() == 0 {
        assert(s =~= q);
        assert(q.subrange(0, q.len() as int) =~= q);
        assert(occurs_at(s, q, 0));
        assert(q.subrange(q.len() as int, q.len() as int) =~= Seq::<char>::empty());
        assert(fill + replace_all(Seq::<char>::empty(), q, fill) =~= fill);
        assert(w + fill =~= fill);
    } else {
        if occurs_at(s, q, 0) {
            assert(s.subrange(0, q.len() as int)[1] == q[1]);
            if w.len() > 1 {
                assert(s[1] == w[1]);
            } else {
                assert(s[1] == q[0]);
            }
        }
        let rest = w.drop_first();
        assert(s.subrange(1, s.len() as int) =~= rest + q);
        lemma_replace_trailing_quoted(rest, q, fill);
        assert(seq![s[0]] + (rest + fill) =~= w + fill);
    }
}

proof fn lemma_filled_text_stays(w: Seq<char>, fill: Seq<char>, rules: Seq<(Seq<char>, Seq<char>)>)
    requires
        free_of_angle(w),
        free_of_angle(fill),
        forall|m: int| 0 <= m < rules.len() ==> !free_of_angle((#[trigger] rules[m]).0),
    ensures
        apply_rules(w + fill, rules) == w + fill,
{
    let done = w + fill;
    assert forall|x: int| 0 <= x < done.len() implies done[x] != '<' by {
        if x < w.len() {
            assert(done[x] == w[x]);
        } else {
            assert(done[x] == fill[x - w.len()]);
        }
    }
    assert forall|m: int| 0 <= m < rules.len() implies !contains_seq(done, (#[trigger] rules[m]).0) by {
        lemma_no_angle_no_occurrence(done, rules[m].0);
    }
    lemma_rules_without_occurrence(done, rules);
}

spec fn quoted_rules_precondition(
    w: Seq<char>,
    q: Seq<char>,
    fill: Seq<char>,
    rules: Seq<(Seq<char>, Seq<char>)>,
    k: int,
    j: int,
) -> bool {
    &&& free_of_angle(w)
    &&& quoted_shape(q)
    &&& free_of_angle(fill)
    &&& 0 <= k <= j < rules.len()
    &&& rules[j].0 == q
    &&& rules[j].1 == fill
    &&& forall|m: int|
        k <= m < j ==> placeholder_shape((#[trigger] rules[m]).0) || (quoted_shape(rules[m].0)
            && rules[m].0.len() != q.len())
    &&& forall|m: int| 0 <= m < rules.len() ==> !free_of_angle((#[trigger] rules[m]).0)
}

proof fn lemma_quoted_rule_found(
    w: Seq<char>,
    q: Seq<char>,
    fill: Seq<char>,
    rules: Seq<(Seq<char>, Seq<char>)>,
    k: int,
    j: int,
)
    requires
        quoted_rules_precondition(w, q, fill, rules, k, j),
        contains_seq(w + q, rules[k].0),
    ensures
        k == j,
        replace_all(w + q, rules[k].0, rules[k].1) == w + fill,
{
    let i = choose|i: int| #[trigger] occurs_at(w + q, rules[k].0, i);
    lemma_quoted_occurrence(w, q, rules[k].0, i);
    if k < j {
        reveal(quoted_shape);
        assert(placeholder_shape(rules[k].0) || quoted_shape(rules[k].0));
    }
    lemma_replace_trailing_quoted(w, q, fill);
}

proof fn lemma_trailing_quoted_rules(
    w: Seq<char>,
    q: Seq<char>,
    fill: Seq<char>,
    rules: Seq<(Seq<char>, Seq<char>)>,
    k: int,
    j: int,
)
    requires
        quoted_rules_precondition(w, q, fill, rules, k, j),
    ensures
        apply_rules(w + q, rules.subrange(k, rules.len() as int)) == w + fill,
    decreases j - k,
{
    let s = w + q;
    let tail = rules.subrange(k + 1, rules.len() as int);
    lemma_apply_rules_step(s, rules, k);
    if contains_seq(s, rules[k].0) {
        lemma_quoted_rule_found(w, q, fill, rules, k, j);
        assert forall|m: int| 0 <= m < tail.len() implies !free_of_angle((#[trigger] tail[m]).0) by {
            assert(tail[m] == rules[k + 1 + m]);
        }
        lemma_filled_text_stays(w, fill, tail);
    } else {
        if k == j {
            assert(s.subrange(w.len() as int, (w.len() + q.len()) as int) =~= q);
            assert(occurs_at(s, q, w.len() as int));
        }
        law_replace_without_occurrence(s, rules[k].0, rules[k].1);
        lemma_trailing_quoted_rules(w, q, fill, rules, k + 1, j);
    }
}

proof fn lemma_apply_rules_step(s: Seq<char>, rules: Seq<(Seq<char>, Seq<char>)>, k: int)
    requires
        0 <= k < rules.len(),
    ensures
        apply_rules(s, rules.subrange(k, rules.len() as int)) == apply_rules(
            replace_all(s, rules[k].0, rules[k].1),
            rules.subrange(k + 1, rules.len() as int),
        ),
{
    let rest = rules.subrange(k, rules.len() as int);
    assert(rest[0] == rules[k]);
    assert(rest.subrange(1, rest.len() as int) =~= rules.subrange(k + 1, rules.len() as int));
}

/// A quoted placeholder at the end of a command line is filled in: the
/// clipboard text is the text before it, when that has no `<`, followed by
/// the filling.
pub proof fn law_quoted_placeholder_filled(w: Seq<char>, m: int)
    requires
        free_of_angle(w),
        0 <= m < 4,
    ensures
        clipboard_text(w + filled_placeholders()[m].0) == w + filled_placeholders()[m].1,
{
    lemma_rule_literals();
    lemma_fill_literals();
    let q = filled_placeholders()[m].0;
    let fill = filled_placeholders()[m].1;
    assert(placeholder_rules()[23 + m].0 == q);
    assert(placeholder_rules()[23 + m].1 == fill);
    assert forall|x: int| 0 <= x < 23 + m implies placeholder_shape(
        (#[trigger] placeholder_rules()[x]).0,
    ) || (quoted_shape(placeholder_rules()[x].0) && placeholder_rules()[x].0.len() != q.len()) by {
        if x >= 23 {
            assert(quoted_shape(placeholder_rules()[x].0));
        }
    }
    assert(placeholder_rules().subrange(0, 31) =~= placeholder_rules());
    lemma_trailing_quoted_rules(w, q, fill, placeholder_rules(), 0, 23 + m);
}

/// The clipboard rules are, in this order, the removal of each removable
/// placeholder and then the filling of each filled placeholder.
pub proof fn law_clipboard_rules_listed()
    ensures
        placeholder_rules().len() == removable_placeholders().len() + filled_placeholders().len(),
        forall|m: int|
            0 <= m < removable_placeholders().len() ==> (#[trigger] placeholder_rules()[m]).0
                == removable_placeholders()[m] && placeholder_rules()[m].1.len() == 0,
        forall|m: int|
            0 <= m < filled_placeholders().len() ==> #[trigger] placeholder_rules()[removable_placeholders().len() + m]
                == filled_placeholders()[m],
{
    lemma_rule_literals();
    lemma_fill_literals();
}

/// Where a placeholder follows a text without `<`, the replacement of that
/// placeholder puts its replacement there and goes on replacing in the rest:
/// every occurrence is replaced, not only the first.
pub proof fn law_replace_at_placeholder(a: Seq<char>, p: Seq<char>, b: Seq<char>, to: Seq<char>)
    requires
        free_of_angle(a),
        placeholder_shape(p),
    ensures
        replace_all(a + p + b, p, to) == a + to + replace_all(b, p, to),
    decreases a.len(),
{
    let s = a + p + b;
    if a.len() == 0 {
        assert(s.subrange(0, p.len() as int) =~= p);
        assert(occurs_at(s, p, 0));
        assert(s.subrange(p.len() as int, s.len() as int) =~= b);
        assert(a + to + replace_all(b, p, to) =~= to + replace_all(b, p, to));
    } else {
        if occurs_at(s, p, 0) {
            assert(s.subrange(0, p.len() as int)[1] == p[1]);
            if a.len() > 1 {
                assert(s[1] == a[1]);
            } else {
                assert(s[1] == p[0]);
            }
        }
        let rest = a.drop_first();
        assert(s.subrange(1, s.len() as int) =~= rest + p + b);
        law_replace_at_placeholder(rest, p, b, to);
        assert(seq![s[0]] + (rest + to + replace_all(b, p, to)) =~= a + to + replace_all(b, p, to));
    }
}

/// The pieces joined again with the separator between them.
pub open spec fn join_with(pieces: Seq<Seq<char>>, sep: char) -> Seq<char>
    decreases pieces.len(),
{
    if pieces.len() <= 1 {
        if pieces.len() == 0 {
            seq![]
        } else {
            pieces[0]
        }
    } else {
        join_with(pieces.drop_last(), sep).push(sep) + pieces.last()
    }
}

/// Cutting a text at a character gives at least one piece, none of which
/// holds that character, and joining the pieces with it gives the text back.
pub proof fn law_split_rejoins(s: Seq<char>, sep: char)
    ensures
        split_at_char(s, sep).len() >= 1,
        join_with(split_at_char(s, sep), sep) == s,
        forall|i: int, k: int|
            0 <= i < split_at_char(s, sep).len() && 0 <= k < split_at_char(s, sep)[i].len()
                ==> #[trigger] split_at_char(s, sep)[i][k] != sep,
        s.len() > 0 && s.last() != sep ==> split_at_char(s, sep).last().len() > 0,
    decreases s.len(),
{
    if s.len() > 0 {
        let init = split_at_char(s.drop_last(), sep);
        law_split_rejoins(s.drop_last(), sep);
        let pieces = split_at_char(s, sep);
        if s.last() == sep {
            assert(pieces == init.push(seq![]));
            assert(pieces.drop_last() =~= init);
            assert(join_with(pieces, sep) =~= s.drop_last().push(sep) + Seq::<char>::empty());
            assert(s.drop_last().push(sep) =~= s);
            assert forall|i: int, k: int|
                0 <= i < pieces.len() && 0 <= k < pieces[i].len() implies #[trigger] pieces[i][k]
                != sep by {
                assert(i < init.len());
                assert(pieces[i] == init[i]);
            }
        } else {
            let last = init.last().push(s.last());
            assert(pieces == init.update(init.len() - 1, last));
            if init.len() == 1 {
                assert(join_with(init, sep) == init[0]);
                assert(join_with(pieces, sep) == last);
                assert(last =~= s.drop_last().push(s.last()));
            } else {
                assert(pieces.drop_last() =~= init.drop_last());
                assert(join_with(pieces, sep) == join_with(init.drop_last(), sep).push(sep) + last);
                assert(join_with(init, sep) == join_with(init.drop_last(), sep).push(sep) + init.last());
                assert(join_with(init.drop_last(), sep).push(sep) + last =~= (join_with(
                    init.drop_last(),
                    sep,
                ).push(sep) + init.last()).push(s.last()));
            }
            assert(s.drop_last().push(s.last()) =~= s);
            assert forall|i: int, k: int|
                0 <= i < pieces.len() && 0 <= k < pieces[i].len() implies #[trigger] pieces[i][k]
                != sep by {
                if i < init.len() - 1 {
                    assert(pieces[i] == init[i]);
                } else {
                    if k < init.last().len() {
                        assert(pieces[i][k] == init.last()[k]);
                        assert(init[init.len() - 1][k] != sep);
                    }
                }
            }
        }
    }
}

/// The tokens after the program name, joined with single spaces, give the
/// text after the first space of the command line; no token holds a space.
pub proof fn law_tokens_rejoin(cmd: Seq<char>, p: int)
    requires
        first_space(cmd) == Some(p),
    ensures
        join_with(argument_tokens(cmd), ' ') == cmd.subrange(p + 1, cmd.len() as int),
        forall|i: int, k: int|
            0 <= i < argument_tokens(cmd).len() && 0 <= k < argument_tokens(cmd)[i].len()
                ==> #[trigger] argument_tokens(cmd)[i][k] != ' ',
{
    law_split_rejoins(cmd.subrange(p + 1, cmd.len() as int), ' ');
}

/// A text with no carriage return and no final newline is given back by
/// joining its lines with newlines, and no line holds a newline.
pub proof fn law_lines_rejoin(s: Seq<char>)
    requires
        s.len() > 0,
        s.last() != '\n',
        forall|i: int| 0 <= i < s.len() ==> s[i] != '\r',
    ensures
        join_with(lines_of(s), '\n') == s,
        forall|i: int, k: int|
            0 <= i < lines_of(s).len() && 0 <= k < lines_of(s)[i].len() ==> #[trigger] lines_of(s)[i][k]
                != '\n',
{
    law_split_rejoins(s, '\n');
    let parts = split_at_char(s, '\n');
    assert forall|i: int| 0 <= i < parts.len() implies strip_cr(#[trigger] parts[i]) == parts[i] by {
        if parts[i].len() > 0 {
            let k = parts[i].len() - 1;
            assert(parts[i][k] != '\r') by {
                law_pieces_come_from_text(s, '\n', i, k);
            }
        }
    }
    assert(lines_of(s) =~= parts);
}

/// Every character of a piece is a character of the text.
pub proof fn law_pieces_come_from_text(s: Seq<char>, sep: char, i: int, k: int)
    requires
        0 <= i < split_at_char(s, sep).len(),
        0 <= k < split_at_char(s, sep)[i].len(),
    ensures
        exists|x: int| 0 <= x < s.len() && s[x] == split_at_char(s, sep)[i][k],
    decreases s.len(),
{
    if s.len() > 0 {
        let init = split_at_char(s.drop_last(), sep);
        law_split_rejoins(s.drop_last(), sep);
        let pieces = split_at_char(s, sep);
        if s.last() == sep {
            assert(pieces == init.push(seq![]));
            assert(pieces[i] == init[i]);
            law_pieces_come_from_text(s.drop_last(), sep, i, k);
            let x = choose|x: int| 0 <= x < s.drop_last().len() && s.drop_last()[x] == init[i][k];
            assert(s[x] == s.drop_last()[x]);
        } else {
            let last = init.last().push(s.last());
            assert(pieces == init.update(init.len() - 1, last));
            if i == init.len() - 1 && k == init.last().len() {
                assert(pieces[i][k] == s[s.len() - 1]);
            } else {
                assert(pieces[i][k] == init[i][k]);
                law_pieces_come_from_text(s.drop_last(), sep, i, k);
                let x = choose|x: int| 0 <= x < s.drop_last().len() && s.drop_last()[x] == init[i][k];
                assert(s[x] == s.drop_last()[x]);
            }
        }
    }
}

/// A token that starts with `-` is a flag; one written `<...>`, or that
/// starts with a quote, is a placeholder; any other is a word.
pub proof fn law_token_kinds(t: Seq<char>)
    ensures
        t.len() > 0 && t[0] == '-' ==> token_kind(t) == TokenKind::Flag,
        t.len() > 0 && t[0] == '"' ==> token_kind(t) == TokenKind::Placeholder,
        t.len() > 0 && t[0] == '<' && t[t.len() - 1] == '>' ==> token_kind(t)
            == TokenKind::Placeholder,
        !(t.len() > 0 && (t[0] == '-' || t[0] == '"' || (t[0] == '<' && t[t.len() - 1] == '>')))
            ==> token_kind(t) == TokenKind::Word,
{
}

/// Outside a search the list shows the commands of the selected category;
/// during a search it shows, in order, the commands that the results name.
pub proof fn law_visible_commands(a: App)
    ensures
        !(a.mode == Mode::Search && a.search_query@.len() > 0) ==> a.visible()
            == a.categories@[a.category_index as int].commands@,
        a.mode == Mode::Search && a.search_query@.len() > 0 ==> a.visible().len()
            == a.search_results@.len() && forall|j: int|
            0 <= j < a.search_results@.len() ==> #[trigger] a.visible()[j]
                == a.categories@[a.search_results@[j].0 as int].commands@[a.search_results@[j].1 as int],
{
}

/// The first space of a command line is a space with no space before it; a
/// line without a first space has no space at all.
pub proof fn law_first_space(cmd: Seq<char>)
    ensures
        first_space(cmd) matches Some(p) ==> 0 <= p < cmd.len() && cmd[p] == ' ' && forall|j: int|
            0 <= j < p ==> cmd[j] != ' ',
        first_space(cmd) is None ==> forall|j: int| 0 <= j < cmd.len() ==> cmd[j] != ' ',
{
    if exists|i: int| 0 <= i < cmd.len() && cmd[i] == ' ' {
        lemma_first_space_exists(cmd);
    }
}

proof fn lemma_first_space_exists(s: Seq<char>)
    requires
        exists|i: int| 0 <= i < s.len() && s[i] == ' ',
    ensures
        exists|i: int| 0 <= i < s.len() && s[i] == ' ' && forall|j: int| 0 <= j < i ==> s[j] != ' ',
    decreases s.len(),
{
    if s[0] == ' ' {
        assert(0 <= 0 < s.len() && s[0] == ' ' && forall|j: int| 0 <= j < 0 ==> s[j] != ' ');
    } else {
        let t = s.drop_first();
        let w = choose|i: int| 0 <= i < s.len() && s[i] == ' ';
        assert(t[w - 1] == ' ');
        lemma_first_space_exists(t);
        let i = choose|i: int| 0 <= i < t.len() && t[i] == ' ' && forall|j: int| 0 <= j < i ==> t[j] != ' ';
        assert forall|j: int| 0 <= j < i + 1 implies s[j] != ' ' by {
            if j > 0 {
                assert(s[j] == t[j - 1]);
            }
        }
        assert(s[i + 1] == t[i]);
    }
}

proof fn lemma_split_without_separator(s: Seq<char>, sep: char)
    requires
        forall|i: int| 0 <= i < s.len() ==> s[i] != sep,
    ensures
        split_at_char(s, sep) == seq![s],
    decreases s.len(),
{
    if s.len() > 0 {
        lemma_split_without_separator(s.drop_last(), sep);
        assert(s.drop_last().push(s.last()) =~= s);
        assert(split_at_char(s, sep) =~= seq![s]);
    } else {
        assert(s =~= Seq::<char>::empty());
    }
}

/// The empty text has no lines; a line ended by a carriage return and a
/// newline is that line without them; and a final newline adds no line.
pub proof fn law_line_endings(a: Seq<char>)
    requires
        forall|i: int| 0 <= i < a.len() ==> a[i] != '\n' && a[i] != '\r',
    ensures
        lines_of(Seq::<char>::empty()) == Seq::<Seq<char>>::empty(),
        lines_of(a.push('\r').push('\n')) == seq![a],
        a.len() > 0 ==> lines_of(a.push('\n')) == lines_of(a),
        a.len() > 0 ==> lines_of(a) == seq![a],
{
    let e = Seq::<char>::empty();
    assert(lines_of(e) =~= Seq::<Seq<char>>::empty());
    let ar = a.push('\r');
    assert(forall|i: int| 0 <= i < ar.len() ==> ar[i] != '\n');
    lemma_split_without_separator(ar, '\n');
    assert(a.push('\r').push('\n').drop_last() =~= ar);
    assert(split_at_char(a.push('\r').push('\n'), '\n') == seq![ar, e]);
    assert(ar.drop_last() =~= a);
    assert(lines_of(a.push('\r').push('\n')) =~= seq![a]);
    lemma_split_without_separator(a, '\n');
    if a.len() > 0 {
        assert(a.push('\n').drop_last() =~= a);
        assert(split_at_char(a.push('\n'), '\n') == seq![a, e]);
        assert(lines_of(a) =~= seq![a]);
        assert(lines_of(a.push('\n')) =~= seq![a]);
    }
}

} // verus!
