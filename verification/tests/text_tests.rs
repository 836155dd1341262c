use git_cheatsheet::search::{command_matches_lowered, find_commands};
use git_cheatsheet::data::{categories, Command};
use git_cheatsheet::text::{
    chars_of, clipboard_command, contains_chars, matches_at, replace_chars, string_from_chars,
};

fn v(s: &str) -> Vec<char> {
    s.chars().collect()
}

#[test]
fn chars_of_keeps_unicode_characters() {
    assert_eq!(chars_of("añb"), vec!['a', 'ñ', 'b']);
    assert!(chars_of("").is_empty());
}

#[test]
fn matches_at_checks_position() {
    assert!(matches_at(&v("git log"), &v("log"), 4));
    assert!(!matches_at(&v("git log"), &v("log"), 3));
    assert!(!matches_at(&v("git log"), &v("log"), 5));
    assert!(!matches_at(&v("ab"), &v("b"), 9));
}

#[test]
fn contains_finds_substrings() {
    assert!(contains_chars(&v("git stash pop"), &v("stash")));
    assert!(!contains_chars(&v("git stash pop"), &v("push")));
    assert!(contains_chars(&v("abc"), &v("")));
    assert!(contains_chars(&v(""), &v("")));
    assert!(!contains_chars(&v("ab"), &v("abc")));
}

#[test]
fn replace_scans_left_to_right_without_overlap() {
    assert_eq!(replace_chars(&v("aaa"), &v("aa"), &v("b")), v("ba"));
    assert_eq!(replace_chars(&v("x <n> y <n>"), &v(" <n>"), &v("")), v("x y"));
    assert_eq!(replace_chars(&v("abc"), &v("z"), &v("q")), v("abc"));
    assert_eq!(replace_chars(&v(""), &v("a"), &v("b")), v(""));
}

#[test]
fn replace_agrees_with_std() {
    for (s, from, to) in [("a-b-c", "-", "+"), ("<<>>", "<>", "x"), ("ééé", "é", "e")] {
        assert_eq!(string_from_chars(&replace_chars(&v(s), &v(from), &v(to))), s.replace(from, to));
    }
}

#[test]
fn clipboard_text_of_commands() {
    assert_eq!(clipboard_command("git push <remote> <branch>"), "git push");
    assert_eq!(clipboard_command("git diff <branch1> <branch2>"), "git diff main feature");
    assert_eq!(clipboard_command("git diff <commit1> <commit2>"), "git diff HEAD~1 HEAD");
    assert_eq!(clipboard_command("git commit -m \"<message>\""), "git commit -m \"your message\"");
    assert_eq!(clipboard_command("git stash push -m \"<msg>\""), "git stash push -m \"your message\"");
    assert_eq!(clipboard_command("git <cmd> -h"), "git -h");
    assert_eq!(clipboard_command("git help<cmd>"), "git help<cmd>");
    assert_eq!(clipboard_command("git log --author=<name>"), "git log --author=<name>");
    assert_eq!(clipboard_command("git status"), "git status");
}

#[test]
fn clipboard_text_applies_rules_in_order() {
    assert_eq!(clipboard_command("tag -a <tag> -m \"<message>\""), "tag -a -m \"your message\"");
    assert_eq!(clipboard_command("x <name>\"<name>\""), "x\"Your Name\"");
}

#[test]
fn query_matching_uses_lowercase_text() {
    let c = Command { cmd: "git Stash", desc: "Put Changes aside", note: "", example: "", danger: false };
    assert!(command_matches_lowered(&c, &v("stash")));
    assert!(command_matches_lowered(&c, &v("changes")));
    assert!(!command_matches_lowered(&c, &v("Stash")));
    assert!(command_matches_lowered(&c, &v("")));
}

#[test]
fn find_commands_lists_matches_in_catalogue_order() {
    let cats = categories();
    assert_eq!(find_commands(&cats, &v("rebase")), vec![(3, 2), (3, 3), (3, 7), (3, 8), (10, 5)]);
    assert_eq!(find_commands(&cats, &v("")).len(), 123);
    assert!(find_commands(&cats, &v("no such text")).is_empty());
}
