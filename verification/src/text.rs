//! Text on the level of characters: pattern occurrence, substring search and
//! replacement of every occurrence of a pattern.

use vstd::prelude::*;

verus! {

/// `pat` occurs in `s` starting at position `i`.
pub open spec fn occurs_at(s: Seq<char>, pat: Seq<char>, i: int) -> bool {
    &&& 0 <= i
    &&& i + pat.len() <= s.len()
    &&& s.subrange(i, i + pat.len()) == pat
}

/// `pat` occurs somewhere in `s` (the empty pattern occurs in every text).
pub open spec fn contains_seq(s: Seq<char>, pat: Seq<char>) -> bool {
    exists|i: int| #[trigger] occurs_at(s, pat, i)
}

/// Every occurrence of `from` in `s`, scanned from the left and without
/// overlap, replaced by `to`. A text without an occurrence is left as it is.
pub open spec fn replace_all(s: Seq<char>, from: Seq<char>, to: Seq<char>) -> Seq<char>
    decreases s.len(),
{
    if s.len() == 0 {
        s
    } else if from.len() > 0 && occurs_at(s, from, 0) {
        to + replace_all(s.subrange(from.len() as int, s.len() as int), from, to)
    } else {
        seq![s[0]] + replace_all(s.subrange(1, s.len() as int), from, to)
    }
}

/// The characters of `s`, in order.
pub fn chars_of(s: &str) -> (r: Vec<char>)
    ensures
        r@ == s@,
{
    let mut r: Vec<char> = Vec::new();
    for c in it: s.chars()
        invariant
            r@ == it.seq().take(it.index() as int),
            it.seq() == s@,
    {
        r.push(c);
    }
    r
}

/// Whether `pat` occurs in `s` at position `i`.
pub fn matches_at(s: &Vec<char>, pat: &Vec<char>, i: usize) -> (r: bool)
    ensures
        r == occurs_at(s@, pat@, i as int),
{
    if i > s.len() || pat.len() > s.len() - i {
        return false;
    }
    let mut j: usize = 0;
    while j < pat.len()
        invariant
            i + pat.len() <= s.len(),
            j <= pat.len(),
            forall|k: int| 0 <= k < j ==> s@[i + k] == pat@[k],
        decreases pat.len() - j,
    {
        if s[i + j] != pat[j] {
            assert(s@.subrange(i as int, i + pat.len())[j as int] != pat@[j as int]);
            return false;
        }
        j = j + 1;
    }
    assert(s@.subrange(i as int, i + pat.len()) =~= pat@);
    true
}

/// Whether `pat` occurs anywhere in `s`.
pub fn contains_chars(s: &Vec<char>, pat: &Vec<char>) -> (r: bool)
    ensures
        r == contains_seq(s@, pat@),
{
    let mut i: usize = 0;
    while i < s.len() && pat.len() <= s.len() - i
        invariant
            i <= s.len(),
            forall|k: int| 0 <= k < i ==> !occurs_at(s@, pat@, k),
        decreases s.len() - i,
    {
        if matches_at(s, pat, i) {
            return true;
        }
        i = i + 1;
    }
    if pat.len() == 0 {
        assert(s@.subrange(i as int, i as int) =~= pat@);
        assert(occurs_at(s@, pat@, i as int));
        return true;
    }
    assert forall|k: int| !occurs_at(s@, pat@, k) by {}
    false
}

/// Every occurrence of `from` in `s` replaced by `to`, scanning from the left
/// and resuming after each replaced occurrence.
pub fn replace_chars(s: &Vec<char>, from: &Vec<char>, to: &Vec<char>) -> (r: Vec<char>)
    requires
        from@.len() > 0,
    ensures
        r@ == replace_all(s@, from@, to@),
{
    let n = s.len();
    let mut out: Vec<char> = Vec::new();
    let mut i: usize = 0;
    assert(s@.subrange(0, n as int) =~= s@);
    assert(out@ + replace_all(s@, from@, to@) =~= replace_all(s@, from@, to@));
    while i < n
        invariant
            n == s@.len(),
            i <= n,
            from@.len() > 0,
            out@ + replace_all(s@.subrange(i as int, n as int), from@, to@) == replace_all(
                s@,
                from@,
                to@,
            ),
        decreases n - i,
    {
        let ghost rest = s@.subrange(i as int, n as int);
        let ghost out_before = out@;
        if matches_at(s, from, i) {
            assert(rest.subrange(0, from@.len() as int) =~= s@.subrange(
                i as int,
                i + from@.len(),
            ));
            assert(rest.subrange(from@.len() as int, rest.len() as int) =~= s@.subrange(
                i + from@.len(),
                n as int,
            ));
            let mut j: usize = 0;
            while j < to.len()
                invariant
                    j <= to@.len(),
                    out@ == out_before + to@.subrange(0, j as int),
                decreases to@.len() - j,
            {
                out.push(to[j]);
                j = j + 1;
                assert(to@.subrange(0, j as int) =~= to@.subrange(0, j - 1) + seq![to@[j - 1]]);
            }
            assert(to@.subrange(0, to@.len() as int) =~= to@);
            assert(out@ + replace_all(s@.subrange((i + from.len()) as int, n as int), from@, to@)
                =~= out_before + replace_all(rest, from@, to@));
            i = i + from.len();
        } else {
            proof {
                if from@.len() <= rest.len() {
                    assert(rest.subrange(0, from@.len() as int) =~= s@.subrange(
                        i as int,
                        i + from@.len(),
                    ));
                }
            }
            assert(rest.subrange(1, rest.len() as int) =~= s@.subrange(i + 1, n as int));
            out.push(s[i]);
            assert(out@ + replace_all(s@.subrange(i + 1, n as int), from@, to@) =~= out_before
                + replace_all(rest, from@, to@));
            i = i + 1;
        }
    }
    assert(s@.subrange(n as int, n as int) =~= Seq::<char>::empty());
    assert(out@ + replace_all(s@.subrange(n as int, n as int), from@, to@) =~= out@);
    out
}

/// The placeholder rules of the clipboard text, in the order in which they are
/// applied: each pattern is replaced by its text wherever it occurs.
pub open spec fn placeholder_rules() -> Seq<(Seq<char>, Seq<char>)> {
    seq![
        (" <name>"@, ""@),
        (" <branch>"@, ""@),
        (" <file>"@, ""@),
        (" <message>"@, ""@),
        (" <remote>"@, ""@),
        (" <url>"@, ""@),
        (" <commit>"@, ""@),
        (" <path>"@, ""@),
        (" <tag>"@, ""@),
        (" <n>"@, ""@),
        (" <pattern>"@, ""@),
        (" <editor>"@, ""@),
        (" <email>"@, ""@),
        (" <alias>"@, ""@),
        (" <cmd>"@, ""@),
        (" <directory>"@, ""@),
        (" <old>"@, ""@),
        (" <new>"@, ""@),
        (" <date>"@, ""@),
        (" <stash>"@, ""@),
        (" <msg>"@, ""@),
        (" <src>"@, ""@),
        (" <dst>"@, ""@),
        ("\"<name>\""@, "\"Your Name\""@),
        ("\"<email>\""@, "\"you@email.com\""@),
        ("\"<message>\""@, "\"your message\""@),
        ("\"<msg>\""@, "\"your message\""@),
        ("<branch1>"@, "main"@),
        ("<branch2>"@, "feature"@),
        ("<commit1>"@, "HEAD~1"@),
        ("<commit2>"@, "HEAD"@),
    ]
}

/// The rules applied to `s` one after the other, each to the result of the
/// ones before it.
pub open spec fn apply_rules(s: Seq<char>, rules: Seq<(Seq<char>, Seq<char>)>) -> Seq<char>
    decreases rules.len(),
{
    if rules.len() == 0 {
        s
    } else {
        apply_rules(replace_all(s, rules[0].0, rules[0].1), rules.subrange(1, rules.len() as int))
    }
}

/// The text that is copied to the clipboard for a listed command.
pub open spec fn clipboard_text(cmd: Seq<char>) -> Seq<char> {
    apply_rules(cmd, placeholder_rules())
}

/// No pattern of the placeholder rules is empty.
pub proof fn lemma_placeholder_patterns_nonempty()
    ensures
        forall|i: int|
            0 <= i < placeholder_rules().len() ==> (#[trigger] placeholder_rules()[i]).0.len() > 0,
{
    reveal_strlit(" <name>");
    reveal_strlit(" <branch>");
    reveal_strlit(" <file>");
    reveal_strlit(" <message>");
    reveal_strlit(" <remote>");
    reveal_strlit(" <url>");
    reveal_strlit(" <commit>");
    reveal_strlit(" <path>");
    reveal_strlit(" <tag>");
    reveal_strlit(" <n>");
    reveal_strlit(" <pattern>");
    reveal_strlit(" <editor>");
    reveal_strlit(" <email>");
    reveal_strlit(" <alias>");
    reveal_strlit(" <cmd>");
    reveal_strlit(" <directory>");
    reveal_strlit(" <old>");
    reveal_strlit(" <new>");
    reveal_strlit(" <date>");
    reveal_strlit(" <stash>");
    reveal_strlit(" <msg>");
    reveal_strlit(" <src>");
    reveal_strlit(" <dst>");
    reveal_strlit("\"<name>\"");
    reveal_strlit("\"<email>\"");
    reveal_strlit("\"<message>\"");
    reveal_strlit("\"<msg>\"");
    reveal_strlit("<branch1>");
    reveal_strlit("<branch2>");
    reveal_strlit("<commit1>");
    reveal_strlit("<commit2>");
}

fn placeholder_rule_list() -> (r: Vec<(&'static str, &'static str)>)
    ensures
        r@.len() == placeholder_rules().len(),
        forall|i: int|
            0 <= i < r@.len() ==> (#[trigger] r@[i]).0@ == placeholder_rules()[i].0 && r@[i].1@
                == placeholder_rules()[i].1,
{
    vec![
        (" <name>", ""),
        (" <branch>", ""),
        (" <file>", ""),
        (" <message>", ""),
        (" <remote>", ""),
        (" <url>", ""),
        (" <commit>", ""),
        (" <path>", ""),
        (" <tag>", ""),
        (" <n>", ""),
        (" <pattern>", ""),
        (" <editor>", ""),
        (" <email>", ""),
        (" <alias>", ""),
        (" <cmd>", ""),
        (" <directory>", ""),
        (" <old>", ""),
        (" <new>", ""),
        (" <date>", ""),
        (" <stash>", ""),
        (" <msg>", ""),
        (" <src>", ""),
        (" <dst>", ""),
        ("\"<name>\"", "\"Your Name\""),
        ("\"<email>\"", "\"you@email.com\""),
        ("\"<message>\"", "\"your message\""),
        ("\"<msg>\"", "\"your message\""),
        ("<branch1>", "main"),
        ("<branch2>", "feature"),
        ("<commit1>", "HEAD~1"),
        ("<commit2>", "HEAD"),
    ]
}

/// `String::push`: appends the character at the end of the string.
#[verifier::external_body]
pub(crate) fn push_char(s: &mut String, c: char)
    ensures
        final(s)@ == old(s)@.push(c),
{
    s.push(c);
}

/// The string of the first `n` characters of `chars`.
pub fn string_from_char_prefix(chars: &Vec<char>, n: usize) -> (r: String)
    requires
        n <= chars@.len(),
    ensures
        r@ == chars@.subrange(0, n as int),
{
    let mut r = String::new();
    let mut i: usize = 0;
    while i < n
        invariant
            n <= chars@.len(),
            i <= n,
            r@ == chars@.subrange(0, i as int),
        decreases n - i,
    {
        push_char(&mut r, chars[i]);
        i = i + 1;
        assert(chars@.subrange(0, i as int) =~= chars@.subrange(0, i - 1).push(chars@[i - 1]));
    }
    r
}

/// The string whose characters are `chars`.
pub fn string_from_chars(chars: &Vec<char>) -> (r: String)
    ensures
        r@ == chars@,
{
    assert(chars@.subrange(0, chars@.len() as int) =~= chars@);
    string_from_char_prefix(chars, chars.len())
}

/// The clipboard text of a command: every placeholder rule applied in order.
pub fn clipboard_command(cmd: &str) -> (r: String)
    ensures
        r@ == clipboard_text(cmd@),
{
    let rules = placeholder_rule_list();
    let ghost spec_rules = placeholder_rules();
    proof {
        lemma_placeholder_patterns_nonempty();
    }
    let mut current = chars_of(cmd);
    let mut i: usize = 0;
    assert(spec_rules.subrange(0, spec_rules.len() as int) =~= spec_rules);
    while i < rules.len()
        invariant
            spec_rules == placeholder_rules(),
            rules@.len() == spec_rules.len(),
            forall|k: int|
                0 <= k < rules@.len() ==> (#[trigger] rules@[k]).0@ == spec_rules[k].0
                    && rules@[k].1@ == spec_rules[k].1,
            forall|k: int| 0 <= k < spec_rules.len() ==> (#[trigger] spec_rules[k]).0.len() > 0,
            i <= rules@.len(),
            apply_rules(current@, spec_rules.subrange(i as int, spec_rules.len() as int))
                == apply_rules(cmd@, spec_rules),
        decreases rules@.len() - i,
    {
        let from = chars_of(rules[i].0);
        let to = chars_of(rules[i].1);
        assert(spec_rules[i as int].0.len() > 0);
        let ghost rest = spec_rules.subrange(i as int, spec_rules.len() as int);
        assert(rest[0] == spec_rules[i as int]);
        assert(rest.subrange(1, rest.len() as int) =~= spec_rules.subrange(
            i + 1,
            spec_rules.len() as int,
        ));
        current = replace_chars(&current, &from, &to);
        i = i + 1;
    }
    assert(spec_rules.subrange(i as int, spec_rules.len() as int) =~= Seq::<(
        Seq<char>,
        Seq<char>,
    )>::empty());
    string_from_chars(&current)
}

/// The lower-case form of a text, as `str::to_lowercase` computes it.
pub uninterp spec fn lowercase(s: Seq<char>) -> Seq<char>;

/// The lower-case form of an ASCII character: `A` to `Z` become `a` to `z`,
/// every other character stays as it is.
pub open spec fn ascii_lower_char(c: char) -> char {
    if 'A' <= c <= 'Z' {
        ((c as int) + 32) as char
    } else {
        c
    }
}

/// The lower-case form of an ASCII text, character by character.
pub open spec fn ascii_lowercase(s: Seq<char>) -> Seq<char> {
    s.map_values(|c: char| ascii_lower_char(c))
}

/// `str::to_lowercase`: the result is named by `lowercase` of the text. Of
/// the Unicode lower-case mapping only its effect on ASCII text is stated:
/// each ASCII capital letter becomes its small letter, and every other ASCII
/// character stays as it is.
#[verifier::external_body]
pub(crate) fn to_lowercase(s: &str) -> (r: String)
    ensures
        r@ == lowercase(s@),
        vstd::utf8::is_ascii_chars(s@) ==> r@ == ascii_lowercase(s@),
{
    s.to_lowercase()
}

/// `String::pop`: removes and returns the last character, or returns `None`
/// and leaves the string as it is when it is empty.
#[verifier::external_body]
pub(crate) fn pop_char(s: &mut String) -> (r: Option<char>)
    ensures
        old(s)@.len() == 0 ==> r is None && final(s)@ == old(s)@,
        old(s)@.len() > 0 ==> r == Some(old(s)@.last()) && final(s)@ == old(s)@.drop_last(),
{
    s.pop()
}

} // verus!
