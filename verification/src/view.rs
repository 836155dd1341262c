//! What the screen shows, computed from plain values: the size the screen
//! needs, where popups and panes go, how a command line is split into
//! highlighted tokens, how a row of the list is highlighted, and which key
//! hints and bindings are listed.

use vstd::prelude::*;
use crate::app::Mode;
use crate::data::Command;
use crate::text::{chars_of, string_from_char_prefix, string_from_chars};

verus! {

/// The narrowest screen that the browser draws on.
pub const MIN_WIDTH: u16 = 60;

/// The lowest screen that the browser draws on.
pub const MIN_HEIGHT: u16 = 24;

/// The largest height of the details of the selected command.
pub const DETAILS_HEIGHT: u16 = 9;

/// The width of the key bindings popup.
pub const HELP_MODAL_WIDTH: u16 = 54;

/// The height of the key bindings popup.
pub const HELP_MODAL_HEIGHT: u16 = 26;

/// A rectangle of the screen, in cells.
#[derive(PartialEq, Eq, Structural, Clone, Copy, Debug)]
pub struct Area {
    pub x: u16,
    pub y: u16,
    pub width: u16,
    pub height: u16,
}

/// `a - b`, or zero when `b` is larger.
pub open spec fn saturating_diff(a: u16, b: u16) -> u16 {
    if a >= b {
        (a - b) as u16
    } else {
        0
    }
}

pub open spec fn min_u16(a: u16, b: u16) -> u16 {
    if a <= b {
        a
    } else {
        b
    }
}

/// Whether the screen is too small to draw the browser on.
pub fn is_too_small(width: u16, height: u16) -> (r: bool)
    ensures
        r == (width < MIN_WIDTH || height < MIN_HEIGHT),
{
    width < MIN_WIDTH || height < MIN_HEIGHT
}

/// A rectangle of at most `width` by `height` cells, centred in `area` and
/// no larger than it.
pub fn centered(area: Area, width: u16, height: u16) -> (r: Area)
    requires
        area.x + saturating_diff(area.width, width) / 2 <= u16::MAX,
        area.y + saturating_diff(area.height, height) / 2 <= u16::MAX,
    ensures
        r.x == area.x + saturating_diff(area.width, width) / 2,
        r.y == area.y + saturating_diff(area.height, height) / 2,
        r.width == min_u16(width, area.width),
        r.height == min_u16(height, area.height),
        r.x + r.width <= area.x + area.width,
        r.y + r.height <= area.y + area.height,
        r.x >= area.x && r.y >= area.y,
        0 <= (area.x + area.width - (r.x + r.width)) - (r.x - area.x) <= 1,
        0 <= (area.y + area.height - (r.y + r.height)) - (r.y - area.y) <= 1,
{
    let free_w = if area.width >= width {
        area.width - width
    } else {
        0
    };
    let free_h = if area.height >= height {
        area.height - height
    } else {
        0
    };
    Area {
        x: area.x + free_w / 2,
        y: area.y + free_h / 2,
        width: if width <= area.width {
            width
        } else {
            area.width
        },
        height: if height <= area.height {
            height
        } else {
            area.height
        },
    }
}

/// The one-row header of the categories sidebar and the list below it.
pub fn sidebar_areas(inner: Area) -> (r: (Area, Area))
    requires
        inner.y < u16::MAX,
    ensures
        r.0 == (Area { x: inner.x, y: inner.y, width: inner.width, height: 1 }),
        r.1 == (Area {
            x: inner.x,
            y: (inner.y + 1) as u16,
            width: inner.width,
            height: saturating_diff(inner.height, 1),
        }),
        r.0.height == 1 && r.1.y == r.0.y + 1,
        r.0.x == inner.x && r.1.x == inner.x && r.0.width == inner.width && r.1.width == inner.width,
        inner.height >= 1 ==> r.0.height + r.1.height == inner.height,
{
    let header = Area { x: inner.x, y: inner.y, width: inner.width, height: 1 };
    let content = Area {
        x: inner.x,
        y: inner.y + 1,
        width: inner.width,
        height: if inner.height >= 1 {
            inner.height - 1
        } else {
            0
        },
    };
    (header, content)
}

/// The heights of the command list and of the details below it, in a pane
/// of the given height: the details take up to `DETAILS_HEIGHT` rows and
/// leave at least four rows to the list when the pane has them.
pub fn commands_pane_heights(height: u16) -> (r: (u16, u16))
    ensures
        r.1 == min_u16(DETAILS_HEIGHT, saturating_diff(height, 4)),
        r.0 == height - r.1,
        r.0 + r.1 == height,
        r.1 <= DETAILS_HEIGHT,
        r.1 > 0 ==> r.0 >= 4,
        height >= DETAILS_HEIGHT + 4 ==> r.1 == DETAILS_HEIGHT,
        height <= 4 ==> r.1 == 0,
{
    let spare = if height >= 4 {
        height - 4
    } else {
        0
    };
    let details = if DETAILS_HEIGHT <= spare {
        DETAILS_HEIGHT
    } else {
        spare
    };
    (height - details, details)
}

/// How a token of a command line is highlighted.
#[derive(PartialEq, Eq, Structural, Clone, Copy, Debug)]
pub enum TokenKind {
    /// Starts with `-`.
    Flag,
    /// Written as `<...>`, or starts with a quote.
    Placeholder,
    /// Anything else.
    Word,
}

/// A token of a command line with its highlight.
pub struct CommandToken {
    pub kind: TokenKind,
    pub text: String,
}

/// The highlight of a token.
pub open spec fn token_kind(t: Seq<char>) -> TokenKind {
    if t.len() > 0 && t[0] == '-' {
        TokenKind::Flag
    } else if t.len() > 0 && ((t[0] == '<' && t.last() == '>') || t[0] == '"') {
        TokenKind::Placeholder
    } else {
        TokenKind::Word
    }
}

/// `s` cut at every occurrence of `sep`, as `str::split` cuts it at a
/// character: the pieces between the separators, empty ones included.
pub open spec fn split_at_char(s: Seq<char>, sep: char) -> Seq<Seq<char>>
    decreases s.len(),
{
    if s.len() == 0 {
        seq![seq![]]
    } else {
        let init = split_at_char(s.drop_last(), sep);
        if s.last() == sep {
            init.push(seq![])
        } else {
            init.update(init.len() - 1, init.last().push(s.last()))
        }
    }
}

/// `s` cut at every space, as `str::split(' ')` cuts it.
pub open spec fn split_spaces(s: Seq<char>) -> Seq<Seq<char>> {
    split_at_char(s, ' ')
}

/// The position of the first space in `s`, if it has one.
pub open spec fn first_space(s: Seq<char>) -> Option<int> {
    if exists|i: int| 0 <= i < s.len() && s[i] == ' ' {
        Some(choose|i: int| 0 <= i < s.len() && s[i] == ' ' && forall|j: int| 0 <= j < i ==> s[j] != ' ')
    } else {
        None
    }
}

/// The tokens that follow the program name of a command line: nothing when
/// the line has no space, else the text after the first space cut at every
/// space.
pub open spec fn argument_tokens(cmd: Seq<char>) -> Seq<Seq<char>> {
    match first_space(cmd) {
        Some(p) => split_spaces(cmd.subrange(p + 1, cmd.len() as int)),
        None => seq![],
    }
}

/// The highlighted tokens that follow the program name of a command line.
pub fn tokenize_command(cmd: &str) -> (r: Vec<CommandToken>)
    ensures
        r@.len() == argument_tokens(cmd@).len(),
        forall|i: int|
            0 <= i < r@.len() ==> (#[trigger] r@[i]).text@ == argument_tokens(cmd@)[i]
                && r@[i].kind == token_kind(argument_tokens(cmd@)[i]),
{
    let chars = chars_of(cmd);
    let n = chars.len();
    let mut p: usize = 0;
    while p < n && chars[p] != ' '
        invariant
            p <= n,
            n == chars@.len(),
            forall|j: int| 0 <= j < p ==> chars@[j] != ' ',
        decreases n - p,
    {
        p = p + 1;
    }
    let mut tokens: Vec<CommandToken> = Vec::new();
    if p == n {
        assert(!(exists|i: int| 0 <= i < chars@.len() && chars@[i] == ' '));
        return tokens;
    }
    assert(first_space(chars@) == Some(p as int)) by {
        let q = choose|i: int|
            0 <= i < chars@.len() && chars@[i] == ' ' && forall|j: int| 0 <= j < i ==> chars@[j] != ' ';
        assert(chars@[p as int] == ' ');
        assert(q == p as int) by {
            if q < p {
                assert(chars@[q] != ' ');
            }
            if q > p {
                assert(chars@[p as int] != ' ');
            }
        }
    }
    let ghost rest = chars@.subrange(p + 1, n as int);
    let mut i: usize = p + 1;
    let mut current: Vec<char> = Vec::new();
    assert(rest.subrange(0, 0) =~= Seq::<char>::empty());
    while i < n
        invariant
            p < n,
            n == chars@.len(),
            rest == chars@.subrange(p + 1, n as int),
            p + 1 <= i <= n,
            split_spaces(rest.subrange(0, i - p - 1)) == tokens@.map_values(
                |t: CommandToken| t.text@,
            ).push(current@),
            forall|k: int|
                0 <= k < tokens@.len() ==> (#[trigger] tokens@[k]).kind == token_kind(
                    tokens@[k].text@,
                ),
        decreases n - i,
    {
        let ghost before = rest.subrange(0, i - p - 1);
        let ghost after = rest.subrange(0, i - p);
        assert(after.drop_last() =~= before);
        assert(after.last() == chars@[i as int]);
        if chars[i] == ' ' {
            let token = finish_token(&current);
            tokens.push(token);
            current = Vec::new();
            assert(tokens@.map_values(|t: CommandToken| t.text@) =~= split_spaces(before).drop_last().push(
                token.text@,
            ));
            assert(split_spaces(after) =~= tokens@.map_values(|t: CommandToken| t.text@).push(
                current@,
            ));
        } else {
            let ghost old_tokens = tokens@.map_values(|t: CommandToken| t.text@);
            current.push(chars[i]);
            assert(split_spaces(after) =~= old_tokens.push(current@));
        }
        i = i + 1;
    }
    assert(rest.subrange(0, n - p - 1) =~= rest);
    let token = finish_token(&current);
    tokens.push(token);
    assert(tokens@.map_values(|t: CommandToken| t.text@) =~= split_spaces(rest));
    tokens
}

fn finish_token(text: &Vec<char>) -> (r: CommandToken)
    ensures
        r.text@ == text@,
        r.kind == token_kind(text@),
{
    let kind = if text.len() > 0 && text[0] == '-' {
        TokenKind::Flag
    } else if text.len() > 0 && ((text[0] == '<' && text[text.len() - 1] == '>') || text[0]
        == '"') {
        TokenKind::Placeholder
    } else {
        TokenKind::Word
    };
    CommandToken { kind, text: string_from_chars(text) }
}

/// How a row of the command list is highlighted.
#[derive(PartialEq, Eq, Structural, Clone, Copy, Debug)]
pub enum RowHighlight {
    /// The selected row while the copy feedback lasts.
    Copied,
    /// The selected row, when its command is destructive.
    Danger,
    /// The selected row otherwise.
    Selected,
    /// Any other row.
    Plain,
}

/// The highlight of a row of the command list.
pub fn row_highlight(selected: bool, copy_feedback_timer: u8, danger: bool) -> (r: RowHighlight)
    ensures
        r == (if !selected {
            RowHighlight::Plain
        } else if copy_feedback_timer > 0 {
            RowHighlight::Copied
        } else if danger {
            RowHighlight::Danger
        } else {
            RowHighlight::Selected
        }),
{
    if !selected {
        RowHighlight::Plain
    } else if copy_feedback_timer > 0 {
        RowHighlight::Copied
    } else if danger {
        RowHighlight::Danger
    } else {
        RowHighlight::Selected
    }
}

/// The key hints of the status bar: a key and what it does.
pub fn status_keys(mode: Mode) -> (r: Vec<(&'static str, &'static str)>)
    ensures
        mode == Mode::Search ==> r@ == seq![
            ("ESC", "exit search"),
            ("Enter", "confirm"),
            ("j/k", "navigate"),
            ("y", "yank"),
        ],
        mode != Mode::Search ==> r@ == seq![
            ("j/k", "navigate"),
            ("h/l", "category"),
            ("/", "search"),
            ("y", "yank cmd"),
            ("?", "help"),
            ("q", "quit"),
        ],
{
    if mode == Mode::Search {
        vec![("ESC", "exit search"), ("Enter", "confirm"), ("j/k", "navigate"), ("y", "yank")]
    } else {
        vec![
            ("j/k", "navigate"),
            ("h/l", "category"),
            ("/", "search"),
            ("y", "yank cmd"),
            ("?", "help"),
            ("q", "quit"),
        ]
    }
}

/// A line of the key bindings popup.
pub enum HelpLine {
    Blank,
    Heading(&'static str),
    Binding(&'static str, &'static str),
}

/// How an entry of the key bindings table is shown: an entry without key and
/// description is a blank line, one without description is a heading.
pub fn help_line(key: &'static str, description: &'static str) -> (r: HelpLine)
    ensures
        key@.len() == 0 && description@.len() == 0 ==> r is Blank,
        key@.len() != 0 && description@.len() == 0 ==> r == HelpLine::Heading(key),
        description@.len() != 0 ==> r == HelpLine::Binding(key, description),
{
    if description.is_empty() && key.is_empty() {
        HelpLine::Blank
    } else if description.is_empty() {
        HelpLine::Heading(key)
    } else {
        HelpLine::Binding(key, description)
    }
}

/// The entries of the key bindings table: a key and what it does, a heading
/// with no description, or an empty pair for a blank line.
pub fn help_bindings() -> (r: Vec<(&'static str, &'static str)>)
    ensures
        r@ == seq![
            ("Navigation", ""),
            ("  j / Down", "move selection down"),
            ("  k / Up", "move selection up"),
            ("  l / Right", "next category"),
            ("  h / Left", "prev category"),
            ("  g", "jump to first item"),
            ("  G", "jump to last item"),
            ("  Tab", "toggle sidebar / list focus"),
            ("", ""),
            ("Search", ""),
            ("  /", "enter search mode"),
            ("  ESC", "exit search / close help"),
            ("  Backspace", "delete last char"),
            ("", ""),
            ("Actions", ""),
            ("  y / Enter", "yank command to clipboard"),
            ("", ""),
            ("App", ""),
            ("  ?", "toggle this help"),
            ("  q / Ctrl-C", "quit"),
        ],
{
    vec![
        ("Navigation", ""),
        ("  j / Down", "move selection down"),
        ("  k / Up", "move selection up"),
        ("  l / Right", "next category"),
        ("  h / Left", "prev category"),
        ("  g", "jump to first item"),
        ("  G", "jump to last item"),
        ("  Tab", "toggle sidebar / list focus"),
        ("", ""),
        ("Search", ""),
        ("  /", "enter search mode"),
        ("  ESC", "exit search / close help"),
        ("  Backspace", "delete last char"),
        ("", ""),
        ("Actions", ""),
        ("  y / Enter", "yank command to clipboard"),
        ("", ""),
        ("App", ""),
        ("  ?", "toggle this help"),
        ("  q / Ctrl-C", "quit"),
    ]
}

/// A line without the carriage return that ends it, if it has one.
pub open spec fn strip_cr(line: Seq<char>) -> Seq<char> {
    if line.len() > 0 && line.last() == '\r' {
        line.drop_last()
    } else {
        line
    }
}

/// The lines of `s`, as `str::lines` gives them: the pieces between the
/// newlines, a carriage return before a newline taken off, and no empty line
/// after a final newline (so the empty text has no lines).
pub open spec fn lines_of(s: Seq<char>) -> Seq<Seq<char>> {
    let parts = split_at_char(s, '\n');
    let cut = Seq::new(
        parts.len(),
        |i: int|
            if i + 1 < parts.len() {
                strip_cr(parts[i])
            } else {
                parts[i]
            },
    );
    if parts.last().len() == 0 {
        cut.drop_last()
    } else {
        cut
    }
}

/// The lines of a text.
pub fn text_lines(text: &str) -> (r: Vec<String>)
    ensures
        r@.len() == lines_of(text@).len(),
        forall|k: int| 0 <= k < r@.len() ==> (#[trigger] r@[k])@ == lines_of(text@)[k],
{
    let chars = chars_of(text);
    let n = chars.len();
    let mut lines: Vec<String> = Vec::new();
    let mut current: Vec<char> = Vec::new();
    let ghost mut raw: Seq<Seq<char>> = seq![];
    let mut i: usize = 0;
    assert(chars@.subrange(0, 0) =~= Seq::<char>::empty());
    assert(split_at_char(Seq::<char>::empty(), '\n') =~= raw.push(current@));
    while i < n
        invariant
            n == chars@.len(),
            i <= n,
            split_at_char(chars@.subrange(0, i as int), '\n') == raw.push(current@),
            lines@.len() == raw.len(),
            forall|k: int| 0 <= k < raw.len() ==> (#[trigger] lines@[k])@ == strip_cr(raw[k]),
        decreases n - i,
    {
        let ghost prefix = chars@.subrange(0, i as int);
        let ghost next = chars@.subrange(0, i + 1);
        assert(next.drop_last() =~= prefix);
        assert(next.last() == chars@[i as int]);
        if chars[i] == '\n' {
            let keep = if current.len() > 0 && current[current.len() - 1] == '\r' {
                current.len() - 1
            } else {
                current.len()
            };
            let line = string_from_char_prefix(&current, keep);
            assert(line@ =~= strip_cr(current@));
            lines.push(line);
            proof {
                raw = raw.push(current@);
            }
            current = Vec::new();
            assert(split_at_char(next, '\n') =~= raw.push(current@));
        } else {
            current.push(chars[i]);
            assert(split_at_char(next, '\n') =~= raw.push(current@));
        }
        i = i + 1;
    }
    assert(chars@.subrange(0, n as int) =~= chars@);
    let ghost parts = raw.push(current@);
    if current.len() > 0 {
        let last = string_from_chars(&current);
        lines.push(last);
        assert(lines_of(text@).len() == lines@.len());
        assert forall|k: int| 0 <= k < lines@.len() implies (#[trigger] lines@[k])@ == lines_of(
            text@,
        )[k] by {
            if k < raw.len() {
                assert(parts[k] == raw[k]);
            }
        }
    } else {
        assert(lines_of(text@).len() == lines@.len());
        assert forall|k: int| 0 <= k < lines@.len() implies (#[trigger] lines@[k])@ == lines_of(
            text@,
        )[k] by {
            assert(parts[k] == raw[k]);
        }
    }
    lines
}

/// What the details pane shows of a command besides its line and
/// description: the note when there is one, and the lines of its examples.
pub struct CommandDetails {
    pub note: Option<&'static str>,
    pub examples: Vec<String>,
}

/// The note and the example lines of a command.
pub fn command_details(command: &Command) -> (r: CommandDetails)
    ensures
        command.note@.len() == 0 ==> r.note is None,
        command.note@.len() > 0 ==> r.note == Some(command.note),
        r.examples@.len() == lines_of(command.example@).len(),
        forall|k: int|
            0 <= k < r.examples@.len() ==> (#[trigger] r.examples@[k])@ == lines_of(
                command.example@,
            )[k],
{
    let note = if command.note.is_empty() {
        None
    } else {
        Some(command.note)
    };
    CommandDetails { note, examples: text_lines(command.example) }
}

/// What the search bar shows.
#[derive(PartialEq, Eq, Structural, Clone, Copy, Debug)]
pub enum SearchPrompt {
    /// How to start a search, outside search mode.
    Hint,
    /// An invitation to type, in search mode with an empty query.
    TypeToSearch,
    /// The query, in search mode.
    Query,
}

/// What the search bar shows in the given mode for the given query.
pub fn search_prompt(mode: Mode, query: &String) -> (r: SearchPrompt)
    ensures
        r == (if mode != Mode::Search {
            SearchPrompt::Hint
        } else if query@.len() == 0 {
            SearchPrompt::TypeToSearch
        } else {
            SearchPrompt::Query
        }),
{
    if mode != Mode::Search {
        SearchPrompt::Hint
    } else if query.as_str().is_empty() {
        SearchPrompt::TypeToSearch
    } else {
        SearchPrompt::Query
    }
}

/// The message shown in place of an empty command list.
pub fn empty_list_message(visible_count: usize) -> (r: Option<&'static str>)
    ensures
        visible_count == 0 ==> r == Some("no results found"),
        visible_count > 0 ==> r is None,
{
    if visible_count == 0 {
        Some("no results found")
    } else {
        None
    }
}

/// How a row of the command list is drawn.
pub struct CommandRow {
    pub highlight: RowHighlight,
    /// The row carries a warning badge.
    pub danger_badge: bool,
    /// The command line is drawn in the warning colour.
    pub alert_text: bool,
}

/// How the row of a command is drawn: its highlight, and the warning badge
/// and colour of a destructive command.
pub fn command_row(selected: bool, copy_feedback_timer: u8, danger: bool) -> (r: CommandRow)
    ensures
        r.highlight == (if !selected {
            RowHighlight::Plain
        } else if copy_feedback_timer > 0 {
            RowHighlight::Copied
        } else if danger {
            RowHighlight::Danger
        } else {
            RowHighlight::Selected
        }),
        r.danger_badge == danger,
        r.alert_text == danger,
{
    CommandRow {
        highlight: row_highlight(selected, copy_feedback_timer, danger),
        danger_badge: danger,
        alert_text: danger,
    }
}

} // verus!
