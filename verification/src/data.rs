//! The built-in catalogue of git commands, grouped in categories.

use vstd::prelude::*;

verus! {

/// One command of the catalogue.
#[derive(Clone, Copy)]
pub struct Command {
    /// The command line, with placeholders such as `<branch>`.
    pub cmd: &'static str,
    /// A one-line description.
    pub desc: &'static str,
    /// Extra context; empty when there is none.
    pub note: &'static str,
    /// Example invocations, one per line.
    pub example: &'static str,
    /// Whether the command is destructive.
    pub danger: bool,
}

/// A named group of commands.
pub struct Category {
    pub name: &'static str,
    pub commands: Vec<Command>,
}

/// Every count of the catalogue fits in a `usize`, so that a position in it
/// can be written as a pair of `usize`.
pub open spec fn catalog_fits(categories: Seq<Category>) -> bool {
    &&& categories.len() <= usize::MAX
    &&& forall|c: int|
        0 <= c < categories.len() ==> (#[trigger] categories[c]).commands@.len() <= usize::MAX
}

/// The number of commands in all the categories together.
pub open spec fn catalog_size(categories: Seq<Category>) -> nat
    decreases categories.len(),
{
    if categories.len() == 0 {
        0
    } else {
        catalog_size(categories.drop_last()) + categories.last().commands@.len()
    }
}

/// The number of categories of the built-in catalogue.
pub const CATEGORY_COUNT: usize = 13;

/// The number of commands of the built-in catalogue.
pub const COMMAND_COUNT: usize = 123;

/// The commands of the category "Getting Started".
pub open spec fn setup_commands() -> Seq<Command> {
    seq![
        Command {
            cmd: "git init",
            desc: "Create an empty repository in the current directory.",
            note: "Creates a hidden .git directory.",
            example: "git init",
            danger: false,
        },
        Command {
            cmd: "git clone <url>",
            desc: "Copy a remote repository to your machine.",
            note: "Clones every branch and the full history.",
            example: "git clone https://example.com/project.git",
            danger: false,
        },
        Command {
            cmd: "git clone --depth 1 <url>",
            desc: "Shallow clone with only the latest commit.",
            note: "Much faster for large repositories.",
            example: "git clone --depth 1 https://example.com/project.git",
            danger: false,
        },
        Command {
            cmd: "git config --global user.name \"<name>\"",
            desc: "Set the name recorded in your commits.",
            note: "",
            example: "git config --global user.name \"Ada Lovelace\"",
            danger: false,
        },
        Command {
            cmd: "git config --global user.email \"<email>\"",
            desc: "Set the email recorded in your commits.",
            note: "",
            example: "git config --global user.email \"ada@example.com\"",
            danger: false,
        },
        Command {
            cmd: "git init --bare",
            desc: "Create a repository without a working tree.",
            note: "Used for central repositories.",
            example: "git init --bare project.git",
            danger: false,
        },
        Command {
            cmd: "git clone --branch <branch> <url>",
            desc: "Clone and check out a given branch.",
            note: "",
            example: "git clone --branch develop https://example.com/project.git",
            danger: false,
        },
        Command {
            cmd: "git --version",
            desc: "Show the installed git version.",
            note: "",
            example: "git --version",
            danger: false,
        },
    ]
}

fn setup_category() -> (c: Category)
    ensures
        c.name == "Getting Started",
        c.commands@ == setup_commands(),
{
    Category {
        name: "Getting Started",
        commands: vec![
            Command {
                cmd: "git init",
                desc: "Create an empty repository in the current directory.",
                note: "Creates a hidden .git directory.",
                example: "git init",
                danger: false,
            },
            Command {
                cmd: "git clone <url>",
                desc: "Copy a remote repository to your machine.",
                note: "Clones every branch and the full history.",
                example: "git clone https://example.com/project.git",
                danger: false,
            },
            Command {
                cmd: "git clone --depth 1 <url>",
                desc: "Shallow clone with only the latest commit.",
                note: "Much faster for large repositories.",
                example: "git clone --depth 1 https://example.com/project.git",
                danger: false,
            },
            Command {
                cmd: "git config --global user.name \"<name>\"",
                desc: "Set the name recorded in your commits.",
                note: "",
                example: "git config --global user.name \"Ada Lovelace\"",
                danger: false,
            },
            Command {
                cmd: "git config --global user.email \"<email>\"",
                desc: "Set the email recorded in your commits.",
                note: "",
                example: "git config --global user.email \"ada@example.com\"",
                danger: false,
            },
            Command {
                cmd: "git init --bare",
                desc: "Create a repository without a working tree.",
                note: "Used for central repositories.",
                example: "git init --bare project.git",
                danger: false,
            },
            Command {
                cmd: "git clone --branch <branch> <url>",
                desc: "Clone and check out a given branch.",
                note: "",
                example: "git clone --branch develop https://example.com/project.git",
                danger: false,
            },
            Command {
                cmd: "git --version",
                desc: "Show the installed git version.",
                note: "",
                example: "git --version",
                danger: false,
            },
        ],
    }
}

/// The commands of the category "Basics".
pub open spec fn basics_commands() -> Seq<Command> {
    seq![
        Command {
            cmd: "git status",
            desc: "Show the state of the working tree and index.",
            note: "",
            example: "git status\ngit status -s",
            danger: false,
        },
        Command {
            cmd: "git add <file>",
            desc: "Stage changes in a file for the next commit.",
            note: "Use . to stage everything.",
            example: "git add src/main.rs",
            danger: false,
        },
        Command {
            cmd: "git add -p",
            desc: "Stage changes hunk by hunk, interactively.",
            note: "",
            example: "git add -p",
            danger: false,
        },
        Command {
            cmd: "git commit -m \"<message>\"",
            desc: "Record the staged changes with a message.",
            note: "",
            example: "git commit -m \"fix typo in readme\"",
            danger: false,
        },
        Command {
            cmd: "git commit --amend",
            desc: "Rewrite the last commit with the staged changes.",
            note: "Rewrites history: avoid on pushed commits.",
            example: "git commit --amend --no-edit",
            danger: true,
        },
        Command {
            cmd: "git rm <file>",
            desc: "Remove a file from the tree and the index.",
            note: "",
            example: "git rm old.txt",
            danger: false,
        },
        Command {
            cmd: "git mv <old> <new>",
            desc: "Rename or move a tracked file.",
            note: "",
            example: "git mv notes.md docs/notes.md",
            danger: false,
        },
        Command {
            cmd: "git add .",
            desc: "Stage every change in the current directory.",
            note: "",
            example: "git add .",
            danger: false,
        },
        Command {
            cmd: "git commit -am \"<message>\"",
            desc: "Stage tracked changes and commit them.",
            note: "New files are not included.",
            example: "git commit -am \"update docs\"",
            danger: false,
        },
        Command {
            cmd: "git rm --cached <file>",
            desc: "Stop tracking a file but keep it on disk.",
            note: "",
            example: "git rm --cached secrets.env",
            danger: false,
        },
        Command {
            cmd: "git restore --source <commit> <file>",
            desc: "Restore a file as it was in a commit.",
            note: "",
            example: "git restore --source HEAD~2 src/app.rs",
            danger: false,
        },
    ]
}

fn basics_category() -> (c: Category)
    ensures
        c.name == "Basics",
        c.commands@ == basics_commands(),
{
    Category {
        name: "Basics",
        commands: vec![
            Command {
                cmd: "git status",
                desc: "Show the state of the working tree and index.",
                note: "",
                example: "git status\ngit status -s",
                danger: false,
            },
            Command {
                cmd: "git add <file>",
                desc: "Stage changes in a file for the next commit.",
                note: "Use . to stage everything.",
                example: "git add src/main.rs",
                danger: false,
            },
            Command {
                cmd: "git add -p",
                desc: "Stage changes hunk by hunk, interactively.",
                note: "",
                example: "git add -p",
                danger: false,
            },
            Command {
                cmd: "git commit -m \"<message>\"",
                desc: "Record the staged changes with a message.",
                note: "",
                example: "git commit -m \"fix typo in readme\"",
                danger: false,
            },
            Command {
                cmd: "git commit --amend",
                desc: "Rewrite the last commit with the staged changes.",
                note: "Rewrites history: avoid on pushed commits.",
                example: "git commit --amend --no-edit",
                danger: true,
            },
            Command {
                cmd: "git rm <file>",
                desc: "Remove a file from the tree and the index.",
                note: "",
                example: "git rm old.txt",
                danger: false,
            },
            Command {
                cmd: "git mv <old> <new>",
                desc: "Rename or move a tracked file.",
                note: "",
                example: "git mv notes.md docs/notes.md",
                danger: false,
            },
            Command {
                cmd: "git add .",
                desc: "Stage every change in the current directory.",
                note: "",
                example: "git add .",
                danger: false,
            },
            Command {
                cmd: "git commit -am \"<message>\"",
                desc: "Stage tracked changes and commit them.",
                note: "New files are not included.",
                example: "git commit -am \"update docs\"",
                danger: false,
            },
            Command {
                cmd: "git rm --cached <file>",
                desc: "Stop tracking a file but keep it on disk.",
                note: "",
                example: "git rm --cached secrets.env",
                danger: false,
            },
            Command {
                cmd: "git restore --source <commit> <file>",
                desc: "Restore a file as it was in a commit.",
                note: "",
                example: "git restore --source HEAD~2 src/app.rs",
                danger: false,
            },
        ],
    }
}

/// The commands of the category "Branching".
pub open spec fn branch_commands() -> Seq<Command> {
    seq![
        Command {
            cmd: "git branch",
            desc: "List the local branches.",
            note: "The current branch is marked with *.",
            example: "git branch\ngit branch -a",
            danger: false,
        },
        Command {
            cmd: "git branch <branch>",
            desc: "Create a branch at the current commit.",
            note: "",
            example: "git branch feature-login",
            danger: false,
        },
        Command {
            cmd: "git switch <branch>",
            desc: "Switch to another branch.",
            note: "",
            example: "git switch main",
            danger: false,
        },
        Command {
            cmd: "git switch -c <branch>",
            desc: "Create a branch and switch to it.",
            note: "",
            example: "git switch -c feature-login",
            danger: false,
        },
        Command {
            cmd: "git branch -d <branch>",
            desc: "Delete a merged branch.",
            note: "Use -D to delete an unmerged branch.",
            example: "git branch -d feature-login",
            danger: false,
        },
        Command {
            cmd: "git branch -D <branch>",
            desc: "Force-delete a branch, merged or not.",
            note: "Unmerged commits become unreachable.",
            example: "git branch -D experiment",
            danger: true,
        },
        Command {
            cmd: "git branch -m <old> <new>",
            desc: "Rename a branch.",
            note: "",
            example: "git branch -m master main",
            danger: false,
        },
        Command {
            cmd: "git branch -a",
            desc: "List local and remote-tracking branches.",
            note: "",
            example: "git branch -a",
            danger: false,
        },
        Command {
            cmd: "git branch --merged",
            desc: "List branches merged into the current one.",
            note: "",
            example: "git branch --merged main",
            danger: false,
        },
        Command {
            cmd: "git switch -",
            desc: "Switch back to the previous branch.",
            note: "",
            example: "git switch -",
            danger: false,
        },
    ]
}

fn branch_category() -> (c: Category)
    ensures
        c.name == "Branching",
        c.commands@ == branch_commands(),
{
    Category {
        name: "Branching",
        commands: vec![
            Command {
                cmd: "git branch",
                desc: "List the local branches.",
                note: "The current branch is marked with *.",
                example: "git branch\ngit branch -a",
                danger: false,
            },
            Command {
                cmd: "git branch <branch>",
                desc: "Create a branch at the current commit.",
                note: "",
                example: "git branch feature-login",
                danger: false,
            },
            Command {
                cmd: "git switch <branch>",
                desc: "Switch to another branch.",
                note: "",
                example: "git switch main",
                danger: false,
            },
            Command {
                cmd: "git switch -c <branch>",
                desc: "Create a branch and switch to it.",
                note: "",
                example: "git switch -c feature-login",
                danger: false,
            },
            Command {
                cmd: "git branch -d <branch>",
                desc: "Delete a merged branch.",
                note: "Use -D to delete an unmerged branch.",
                example: "git branch -d feature-login",
                danger: false,
            },
            Command {
                cmd: "git branch -D <branch>",
                desc: "Force-delete a branch, merged or not.",
                note: "Unmerged commits become unreachable.",
                example: "git branch -D experiment",
                danger: true,
            },
            Command {
                cmd: "git branch -m <old> <new>",
                desc: "Rename a branch.",
                note: "",
                example: "git branch -m master main",
                danger: false,
            },
            Command {
                cmd: "git branch -a",
                desc: "List local and remote-tracking branches.",
                note: "",
                example: "git branch -a",
                danger: false,
            },
            Command {
                cmd: "git branch --merged",
                desc: "List branches merged into the current one.",
                note: "",
                example: "git branch --merged main",
                danger: false,
            },
            Command {
                cmd: "git switch -",
                desc: "Switch back to the previous branch.",
                note: "",
                example: "git switch -",
                danger: false,
            },
        ],
    }
}

/// The commands of the category "Merging & Rebasing".
pub open spec fn merge_commands() -> Seq<Command> {
    seq![
        Command {
            cmd: "git merge <branch>",
            desc: "Merge another branch into the current one.",
            note: "",
            example: "git merge feature-login",
            danger: false,
        },
        Command {
            cmd: "git merge --abort",
            desc: "Stop a merge that has conflicts.",
            note: "",
            example: "git merge --abort",
            danger: false,
        },
        Command {
            cmd: "git rebase <branch>",
            desc: "Replay the current branch on top of another.",
            note: "Rewrites history of the current branch.",
            example: "git rebase main",
            danger: true,
        },
        Command {
            cmd: "git rebase -i <commit>",
            desc: "Edit, squash or reorder commits interactively.",
            note: "Rewrites history: avoid on pushed commits.",
            example: "git rebase -i HEAD~3",
            danger: true,
        },
        Command {
            cmd: "git cherry-pick <commit>",
            desc: "Apply the changes of one commit on this branch.",
            note: "",
            example: "git cherry-pick a1b2c3d",
            danger: false,
        },
        Command {
            cmd: "git merge --no-ff <branch>",
            desc: "Merge and always create a merge commit.",
            note: "",
            example: "git merge --no-ff feature-login",
            danger: false,
        },
        Command {
            cmd: "git merge --squash <branch>",
            desc: "Stage the changes of a branch as one commit.",
            note: "",
            example: "git merge --squash feature-login",
            danger: false,
        },
        Command {
            cmd: "git rebase --continue",
            desc: "Continue a rebase after fixing conflicts.",
            note: "",
            example: "git rebase --continue",
            danger: false,
        },
        Command {
            cmd: "git rebase --abort",
            desc: "Stop a rebase and return to the original branch.",
            note: "",
            example: "git rebase --abort",
            danger: false,
        },
        Command {
            cmd: "git cherry-pick --abort",
            desc: "Stop a cherry-pick in progress.",
            note: "",
            example: "git cherry-pick --abort",
            danger: false,
        },
    ]
}

fn merge_category() -> (c: Category)
    ensures
        c.name == "Merging & Rebasing",
        c.commands@ == merge_commands(),
{
    Category {
        name: "Merging & Rebasing",
        commands: vec![
            Command {
                cmd: "git merge <branch>",
                desc: "Merge another branch into the current one.",
                note: "",
                example: "git merge feature-login",
                danger: false,
            },
            Command {
                cmd: "git merge --abort",
                desc: "Stop a merge that has conflicts.",
                note: "",
                example: "git merge --abort",
                danger: false,
            },
            Command {
                cmd: "git rebase <branch>",
                desc: "Replay the current branch on top of another.",
                note: "Rewrites history of the current branch.",
                example: "git rebase main",
                danger: true,
            },
            Command {
                cmd: "git rebase -i <commit>",
                desc: "Edit, squash or reorder commits interactively.",
                note: "Rewrites history: avoid on pushed commits.",
                example: "git rebase -i HEAD~3",
                danger: true,
            },
            Command {
                cmd: "git cherry-pick <commit>",
                desc: "Apply the changes of one commit on this branch.",
                note: "",
                example: "git cherry-pick a1b2c3d",
                danger: false,
            },
            Command {
                cmd: "git merge --no-ff <branch>",
                desc: "Merge and always create a merge commit.",
                note: "",
                example: "git merge --no-ff feature-login",
                danger: false,
            },
            Command {
                cmd: "git merge --squash <branch>",
                desc: "Stage the changes of a branch as one commit.",
                note: "",
                example: "git merge --squash feature-login",
                danger: false,
            },
            Command {
                cmd: "git rebase --continue",
                desc: "Continue a rebase after fixing conflicts.",
                note: "",
                example: "git rebase --continue",
                danger: false,
            },
            Command {
                cmd: "git rebase --abort",
                desc: "Stop a rebase and return to the original branch.",
                note: "",
                example: "git rebase --abort",
                danger: false,
            },
            Command {
                cmd: "git cherry-pick --abort",
                desc: "Stop a cherry-pick in progress.",
                note: "",
                example: "git cherry-pick --abort",
                danger: false,
            },
        ],
    }
}

/// The commands of the category "Remote".
pub open spec fn remote_commands() -> Seq<Command> {
    seq![
        Command {
            cmd: "git remote -v",
            desc: "List the remotes with their URLs.",
            note: "",
            example: "git remote -v",
            danger: false,
        },
        Command {
            cmd: "git remote add <name> <url>",
            desc: "Add a new remote.",
            note: "",
            example: "git remote add upstream https://example.com/project.git",
            danger: false,
        },
        Command {
            cmd: "git fetch <remote>",
            desc: "Download objects and refs from a remote.",
            note: "Does not change your working tree.",
            example: "git fetch origin",
            danger: false,
        },
        Command {
            cmd: "git pull",
            desc: "Fetch and integrate changes from the upstream branch.",
            note: "",
            example: "git pull\ngit pull --rebase",
            danger: false,
        },
        Command {
            cmd: "git push <remote> <branch>",
            desc: "Upload local commits to a remote branch.",
            note: "",
            example: "git push origin main",
            danger: false,
        },
        Command {
            cmd: "git push --force-with-lease",
            desc: "Overwrite the remote branch unless someone else pushed.",
            note: "Safer than --force, still rewrites the remote.",
            example: "git push --force-with-lease",
            danger: true,
        },
        Command {
            cmd: "git push -u <remote> <branch>",
            desc: "Push and set the upstream branch.",
            note: "",
            example: "git push -u origin feature-login",
            danger: false,
        },
        Command {
            cmd: "git remote remove <name>",
            desc: "Remove a remote.",
            note: "",
            example: "git remote remove upstream",
            danger: false,
        },
        Command {
            cmd: "git remote set-url <name> <url>",
            desc: "Change the URL of a remote.",
            note: "",
            example: "git remote set-url origin https://example.com/new.git",
            danger: false,
        },
        Command {
            cmd: "git fetch --prune",
            desc: "Fetch and delete refs to removed remote branches.",
            note: "",
            example: "git fetch --prune",
            danger: false,
        },
        Command {
            cmd: "git push <remote> --delete <branch>",
            desc: "Delete a branch on the remote.",
            note: "Others may still depend on the branch.",
            example: "git push origin --delete feature-login",
            danger: true,
        },
    ]
}

fn remote_category() -> (c: Category)
    ensures
        c.name == "Remote",
        c.commands@ == remote_commands(),
{
    Category {
        name: "Remote",
        commands: vec![
            Command {
                cmd: "git remote -v",
                desc: "List the remotes with their URLs.",
                note: "",
                example: "git remote -v",
                danger: false,
            },
            Command {
                cmd: "git remote add <name> <url>",
                desc: "Add a new remote.",
                note: "",
                example: "git remote add upstream https://example.com/project.git",
                danger: false,
            },
            Command {
                cmd: "git fetch <remote>",
                desc: "Download objects and refs from a remote.",
                note: "Does not change your working tree.",
                example: "git fetch origin",
                danger: false,
            },
            Command {
                cmd: "git pull",
                desc: "Fetch and integrate changes from the upstream branch.",
                note: "",
                example: "git pull\ngit pull --rebase",
                danger: false,
            },
            Command {
                cmd: "git push <remote> <branch>",
                desc: "Upload local commits to a remote branch.",
                note: "",
                example: "git push origin main",
                danger: false,
            },
            Command {
                cmd: "git push --force-with-lease",
                desc: "Overwrite the remote branch unless someone else pushed.",
                note: "Safer than --force, still rewrites the remote.",
                example: "git push --force-with-lease",
                danger: true,
            },
            Command {
                cmd: "git push -u <remote> <branch>",
                desc: "Push and set the upstream branch.",
                note: "",
                example: "git push -u origin feature-login",
                danger: false,
            },
            Command {
                cmd: "git remote remove <name>",
                desc: "Remove a remote.",
                note: "",
                example: "git remote remove upstream",
                danger: false,
            },
            Command {
                cmd: "git remote set-url <name> <url>",
                desc: "Change the URL of a remote.",
                note: "",
                example: "git remote set-url origin https://example.com/new.git",
                danger: false,
            },
            Command {
                cmd: "git fetch --prune",
                desc: "Fetch and delete refs to removed remote branches.",
                note: "",
                example: "git fetch --prune",
                danger: false,
            },
            Command {
                cmd: "git push <remote> --delete <branch>",
                desc: "Delete a branch on the remote.",
                note: "Others may still depend on the branch.",
                example: "git push origin --delete feature-login",
                danger: true,
            },
        ],
    }
}

/// The commands of the category "History & Logs".
pub open spec fn log_commands() -> Seq<Command> {
    seq![
        Command {
            cmd: "git log --oneline",
            desc: "Show the history one commit per line.",
            note: "",
            example: "git log --oneline -n 10",
            danger: false,
        },
        Command {
            cmd: "git log --graph --all",
            desc: "Show all branches as a graph.",
            note: "",
            example: "git log --graph --all --oneline",
            danger: false,
        },
        Command {
            cmd: "git log --follow <file>",
            desc: "Show the history of a file across renames.",
            note: "",
            example: "git log --follow src/app.rs",
            danger: false,
        },
        Command {
            cmd: "git log --author=<name>",
            desc: "Show the commits of one author.",
            note: "",
            example: "git log --author=ada",
            danger: false,
        },
        Command {
            cmd: "git show <commit>",
            desc: "Show one commit with its diff.",
            note: "",
            example: "git show HEAD~1",
            danger: false,
        },
        Command {
            cmd: "git blame <file>",
            desc: "Show who last changed each line of a file.",
            note: "",
            example: "git blame README.md",
            danger: false,
        },
        Command {
            cmd: "git log -p <file>",
            desc: "Show the changes made to a file in each commit.",
            note: "",
            example: "git log -p README.md",
            danger: false,
        },
        Command {
            cmd: "git log --since=<date>",
            desc: "Show the commits since a date.",
            note: "",
            example: "git log --since=2024-01-01",
            danger: false,
        },
        Command {
            cmd: "git log -S <pattern>",
            desc: "Find commits that add or remove a text.",
            note: "",
            example: "git log -S parse_config",
            danger: false,
        },
        Command {
            cmd: "git shortlog -sn",
            desc: "Count the commits of each author.",
            note: "",
            example: "git shortlog -sn",
            danger: false,
        },
        Command {
            cmd: "git log --stat",
            desc: "Show the files changed by each commit.",
            note: "",
            example: "git log --stat -n 5",
            danger: false,
        },
    ]
}

fn log_category() -> (c: Category)
    ensures
        c.name == "History & Logs",
        c.commands@ == log_commands(),
{
    Category {
        name: "History & Logs",
        commands: vec![
            Command {
                cmd: "git log --oneline",
                desc: "Show the history one commit per line.",
                note: "",
                example: "git log --oneline -n 10",
                danger: false,
            },
            Command {
                cmd: "git log --graph --all",
                desc: "Show all branches as a graph.",
                note: "",
                example: "git log --graph --all --oneline",
                danger: false,
            },
            Command {
                cmd: "git log --follow <file>",
                desc: "Show the history of a file across renames.",
                note: "",
                example: "git log --follow src/app.rs",
                danger: false,
            },
            Command {
                cmd: "git log --author=<name>",
                desc: "Show the commits of one author.",
                note: "",
                example: "git log --author=ada",
                danger: false,
            },
            Command {
                cmd: "git show <commit>",
                desc: "Show one commit with its diff.",
                note: "",
                example: "git show HEAD~1",
                danger: false,
            },
            Command {
                cmd: "git blame <file>",
                desc: "Show who last changed each line of a file.",
                note: "",
                example: "git blame README.md",
                danger: false,
            },
            Command {
                cmd: "git log -p <file>",
                desc: "Show the changes made to a file in each commit.",
                note: "",
                example: "git log -p README.md",
                danger: false,
            },
            Command {
                cmd: "git log --since=<date>",
                desc: "Show the commits since a date.",
                note: "",
                example: "git log --since=2024-01-01",
                danger: false,
            },
            Command {
                cmd: "git log -S <pattern>",
                desc: "Find commits that add or remove a text.",
                note: "",
                example: "git log -S parse_config",
                danger: false,
            },
            Command {
                cmd: "git shortlog -sn",
                desc: "Count the commits of each author.",
                note: "",
                example: "git shortlog -sn",
                danger: false,
            },
            Command {
                cmd: "git log --stat",
                desc: "Show the files changed by each commit.",
                note: "",
                example: "git log --stat -n 5",
                danger: false,
            },
        ],
    }
}

/// The commands of the category "Undoing Changes".
pub open spec fn undo_commands() -> Seq<Command> {
    seq![
        Command {
            cmd: "git restore <file>",
            desc: "Discard the unstaged changes of a file.",
            note: "The discarded changes cannot be recovered.",
            example: "git restore src/main.rs",
            danger: true,
        },
        Command {
            cmd: "git restore --staged <file>",
            desc: "Unstage a file and keep its changes.",
            note: "",
            example: "git restore --staged src/main.rs",
            danger: false,
        },
        Command {
            cmd: "git revert <commit>",
            desc: "Create a commit that undoes another commit.",
            note: "Safe on shared branches.",
            example: "git revert a1b2c3d",
            danger: false,
        },
        Command {
            cmd: "git reset --soft <commit>",
            desc: "Move HEAD back and keep the changes staged.",
            note: "",
            example: "git reset --soft HEAD~1",
            danger: false,
        },
        Command {
            cmd: "git reset --hard <commit>",
            desc: "Move HEAD back and discard every change.",
            note: "Uncommitted work is lost.",
            example: "git reset --hard origin/main",
            danger: true,
        },
        Command {
            cmd: "git clean -fd",
            desc: "Delete untracked files and directories.",
            note: "Deleted files cannot be recovered.",
            example: "git clean -nd\ngit clean -fd",
            danger: true,
        },
        Command {
            cmd: "git reflog",
            desc: "Show where HEAD has been, to recover lost commits.",
            note: "",
            example: "git reflog",
            danger: false,
        },
        Command {
            cmd: "git reset <file>",
            desc: "Unstage a file.",
            note: "",
            example: "git reset README.md",
            danger: false,
        },
        Command {
            cmd: "git reset --mixed <commit>",
            desc: "Move HEAD back and unstage the changes.",
            note: "",
            example: "git reset --mixed HEAD~1",
            danger: false,
        },
        Command {
            cmd: "git revert --no-commit <commit>",
            desc: "Undo the changes of a commit without committing.",
            note: "",
            example: "git revert --no-commit a1b2c3d",
            danger: false,
        },
        Command {
            cmd: "git checkout <commit> -- <file>",
            desc: "Take a file as it was in a commit.",
            note: "Overwrites the file in the working tree.",
            example: "git checkout HEAD~1 -- src/app.rs",
            danger: true,
        },
    ]
}

fn undo_category() -> (c: Category)
    ensures
        c.name == "Undoing Changes",
        c.commands@ == undo_commands(),
{
    Category {
        name: "Undoing Changes",
        commands: vec![
            Command {
                cmd: "git restore <file>",
                desc: "Discard the unstaged changes of a file.",
                note: "The discarded changes cannot be recovered.",
                example: "git restore src/main.rs",
                danger: true,
            },
            Command {
                cmd: "git restore --staged <file>",
                desc: "Unstage a file and keep its changes.",
                note: "",
                example: "git restore --staged src/main.rs",
                danger: false,
            },
            Command {
                cmd: "git revert <commit>",
                desc: "Create a commit that undoes another commit.",
                note: "Safe on shared branches.",
                example: "git revert a1b2c3d",
                danger: false,
            },
            Command {
                cmd: "git reset --soft <commit>",
                desc: "Move HEAD back and keep the changes staged.",
                note: "",
                example: "git reset --soft HEAD~1",
                danger: false,
            },
            Command {
                cmd: "git reset --hard <commit>",
                desc: "Move HEAD back and discard every change.",
                note: "Uncommitted work is lost.",
                example: "git reset --hard origin/main",
                danger: true,
            },
            Command {
                cmd: "git clean -fd",
                desc: "Delete untracked files and directories.",
                note: "Deleted files cannot be recovered.",
                example: "git clean -nd\ngit clean -fd",
                danger: true,
            },
            Command {
                cmd: "git reflog",
                desc: "Show where HEAD has been, to recover lost commits.",
                note: "",
                example: "git reflog",
                danger: false,
            },
            Command {
                cmd: "git reset <file>",
                desc: "Unstage a file.",
                note: "",
                example: "git reset README.md",
                danger: false,
            },
            Command {
                cmd: "git reset --mixed <commit>",
                desc: "Move HEAD back and unstage the changes.",
                note: "",
                example: "git reset --mixed HEAD~1",
                danger: false,
            },
            Command {
                cmd: "git revert --no-commit <commit>",
                desc: "Undo the changes of a commit without committing.",
                note: "",
                example: "git revert --no-commit a1b2c3d",
                danger: false,
            },
            Command {
                cmd: "git checkout <commit> -- <file>",
                desc: "Take a file as it was in a commit.",
                note: "Overwrites the file in the working tree.",
                example: "git checkout HEAD~1 -- src/app.rs",
                danger: true,
            },
        ],
    }
}

/// The commands of the category "Stashing".
pub open spec fn stash_commands() -> Seq<Command> {
    seq![
        Command {
            cmd: "git stash",
            desc: "Put the uncommitted changes aside.",
            note: "",
            example: "git stash\ngit stash -u",
            danger: false,
        },
        Command {
            cmd: "git stash push -m \"<msg>\"",
            desc: "Stash the changes with a message.",
            note: "",
            example: "git stash push -m \"half-done refactor\"",
            danger: false,
        },
        Command {
            cmd: "git stash list",
            desc: "List the stashes.",
            note: "",
            example: "git stash list",
            danger: false,
        },
        Command {
            cmd: "git stash pop",
            desc: "Apply the latest stash and remove it.",
            note: "",
            example: "git stash pop",
            danger: false,
        },
        Command {
            cmd: "git stash apply <stash>",
            desc: "Apply a stash and keep it.",
            note: "",
            example: "git stash apply stash@{1}",
            danger: false,
        },
        Command {
            cmd: "git stash drop <stash>",
            desc: "Delete a stash.",
            note: "The stash cannot be restored afterwards.",
            example: "git stash drop stash@{0}",
            danger: true,
        },
        Command {
            cmd: "git stash branch <branch>",
            desc: "Create a branch from a stash.",
            note: "",
            example: "git stash branch fix-from-stash",
            danger: false,
        },
        Command {
            cmd: "git stash show -p <stash>",
            desc: "Show the changes in a stash.",
            note: "",
            example: "git stash show -p stash@{0}",
            danger: false,
        },
        Command {
            cmd: "git stash clear",
            desc: "Delete every stash.",
            note: "All stashes are lost.",
            example: "git stash clear",
            danger: true,
        },
    ]
}

fn stash_category() -> (c: Category)
    ensures
        c.name == "Stashing",
        c.commands@ == stash_commands(),
{
    Category {
        name: "Stashing",
        commands: vec![
            Command {
                cmd: "git stash",
                desc: "Put the uncommitted changes aside.",
                note: "",
                example: "git stash\ngit stash -u",
                danger: false,
            },
            Command {
                cmd: "git stash push -m \"<msg>\"",
                desc: "Stash the changes with a message.",
                note: "",
                example: "git stash push -m \"half-done refactor\"",
                danger: false,
            },
            Command {
                cmd: "git stash list",
                desc: "List the stashes.",
                note: "",
                example: "git stash list",
                danger: false,
            },
            Command {
                cmd: "git stash pop",
                desc: "Apply the latest stash and remove it.",
                note: "",
                example: "git stash pop",
                danger: false,
            },
            Command {
                cmd: "git stash apply <stash>",
                desc: "Apply a stash and keep it.",
                note: "",
                example: "git stash apply stash@{1}",
                danger: false,
            },
            Command {
                cmd: "git stash drop <stash>",
                desc: "Delete a stash.",
                note: "The stash cannot be restored afterwards.",
                example: "git stash drop stash@{0}",
                danger: true,
            },
            Command {
                cmd: "git stash branch <branch>",
                desc: "Create a branch from a stash.",
                note: "",
                example: "git stash branch fix-from-stash",
                danger: false,
            },
            Command {
                cmd: "git stash show -p <stash>",
                desc: "Show the changes in a stash.",
                note: "",
                example: "git stash show -p stash@{0}",
                danger: false,
            },
            Command {
                cmd: "git stash clear",
                desc: "Delete every stash.",
                note: "All stashes are lost.",
                example: "git stash clear",
                danger: true,
            },
        ],
    }
}

/// The commands of the category "Tags".
pub open spec fn tag_commands() -> Seq<Command> {
    seq![
        Command {
            cmd: "git tag",
            desc: "List the tags.",
            note: "",
            example: "git tag\ngit tag -l \"v1.*\"",
            danger: false,
        },
        Command {
            cmd: "git tag <tag>",
            desc: "Create a lightweight tag at HEAD.",
            note: "",
            example: "git tag v1.0.0",
            danger: false,
        },
        Command {
            cmd: "git tag -a <tag> -m \"<message>\"",
            desc: "Create an annotated tag.",
            note: "",
            example: "git tag -a v1.0.0 -m \"first release\"",
            danger: false,
        },
        Command {
            cmd: "git push <remote> <tag>",
            desc: "Push one tag to a remote.",
            note: "",
            example: "git push origin v1.0.0",
            danger: false,
        },
        Command {
            cmd: "git tag -d <tag>",
            desc: "Delete a local tag.",
            note: "",
            example: "git tag -d v1.0.0",
            danger: false,
        },
        Command {
            cmd: "git push <remote> --tags",
            desc: "Push every tag to a remote.",
            note: "",
            example: "git push origin --tags",
            danger: false,
        },
        Command {
            cmd: "git push <remote> --delete <tag>",
            desc: "Delete a tag on the remote.",
            note: "",
            example: "git push origin --delete v1.0.0",
            danger: true,
        },
        Command {
            cmd: "git show <tag>",
            desc: "Show a tag and the commit it points to.",
            note: "",
            example: "git show v1.0.0",
            danger: false,
        },
    ]
}

fn tag_category() -> (c: Category)
    ensures
        c.name == "Tags",
        c.commands@ == tag_commands(),
{
    Category {
        name: "Tags",
        commands: vec![
            Command {
                cmd: "git tag",
                desc: "List the tags.",
                note: "",
                example: "git tag\ngit tag -l \"v1.*\"",
                danger: false,
            },
            Command {
                cmd: "git tag <tag>",
                desc: "Create a lightweight tag at HEAD.",
                note: "",
                example: "git tag v1.0.0",
                danger: false,
            },
            Command {
                cmd: "git tag -a <tag> -m \"<message>\"",
                desc: "Create an annotated tag.",
                note: "",
                example: "git tag -a v1.0.0 -m \"first release\"",
                danger: false,
            },
            Command {
                cmd: "git push <remote> <tag>",
                desc: "Push one tag to a remote.",
                note: "",
                example: "git push origin v1.0.0",
                danger: false,
            },
            Command {
                cmd: "git tag -d <tag>",
                desc: "Delete a local tag.",
                note: "",
                example: "git tag -d v1.0.0",
                danger: false,
            },
            Command {
                cmd: "git push <remote> --tags",
                desc: "Push every tag to a remote.",
                note: "",
                example: "git push origin --tags",
                danger: false,
            },
            Command {
                cmd: "git push <remote> --delete <tag>",
                desc: "Delete a tag on the remote.",
                note: "",
                example: "git push origin --delete v1.0.0",
                danger: true,
            },
            Command {
                cmd: "git show <tag>",
                desc: "Show a tag and the commit it points to.",
                note: "",
                example: "git show v1.0.0",
                danger: false,
            },
        ],
    }
}

/// The commands of the category "Inspecting & Diffs".
pub open spec fn diff_commands() -> Seq<Command> {
    seq![
        Command {
            cmd: "git diff",
            desc: "Show the unstaged changes.",
            note: "",
            example: "git diff",
            danger: false,
        },
        Command {
            cmd: "git diff --staged",
            desc: "Show the staged changes.",
            note: "",
            example: "git diff --staged",
            danger: false,
        },
        Command {
            cmd: "git diff <branch1> <branch2>",
            desc: "Compare two branches.",
            note: "",
            example: "git diff main feature-login",
            danger: false,
        },
        Command {
            cmd: "git diff <commit1> <commit2>",
            desc: "Compare two commits.",
            note: "",
            example: "git diff HEAD~1 HEAD",
            danger: false,
        },
        Command {
            cmd: "git grep <pattern>",
            desc: "Search the tracked files.",
            note: "",
            example: "git grep -n TODO",
            danger: false,
        },
        Command {
            cmd: "git diff --stat",
            desc: "Summarise the changes per file.",
            note: "",
            example: "git diff --stat main",
            danger: false,
        },
        Command {
            cmd: "git diff --name-only",
            desc: "List the files that changed.",
            note: "",
            example: "git diff --name-only HEAD~1",
            danger: false,
        },
        Command {
            cmd: "git diff --word-diff",
            desc: "Show the changes word by word.",
            note: "",
            example: "git diff --word-diff README.md",
            danger: false,
        },
        Command {
            cmd: "git ls-files",
            desc: "List the tracked files.",
            note: "",
            example: "git ls-files",
            danger: false,
        },
        Command {
            cmd: "git cat-file -p <commit>",
            desc: "Show the raw content of an object.",
            note: "",
            example: "git cat-file -p HEAD",
            danger: false,
        },
    ]
}

fn diff_category() -> (c: Category)
    ensures
        c.name == "Inspecting & Diffs",
        c.commands@ == diff_commands(),
{
    Category {
        name: "Inspecting & Diffs",
        commands: vec![
            Command {
                cmd: "git diff",
                desc: "Show the unstaged changes.",
                note: "",
                example: "git diff",
                danger: false,
            },
            Command {
                cmd: "git diff --staged",
                desc: "Show the staged changes.",
                note: "",
                example: "git diff --staged",
                danger: false,
            },
            Command {
                cmd: "git diff <branch1> <branch2>",
                desc: "Compare two branches.",
                note: "",
                example: "git diff main feature-login",
                danger: false,
            },
            Command {
                cmd: "git diff <commit1> <commit2>",
                desc: "Compare two commits.",
                note: "",
                example: "git diff HEAD~1 HEAD",
                danger: false,
            },
            Command {
                cmd: "git grep <pattern>",
                desc: "Search the tracked files.",
                note: "",
                example: "git grep -n TODO",
                danger: false,
            },
            Command {
                cmd: "git diff --stat",
                desc: "Summarise the changes per file.",
                note: "",
                example: "git diff --stat main",
                danger: false,
            },
            Command {
                cmd: "git diff --name-only",
                desc: "List the files that changed.",
                note: "",
                example: "git diff --name-only HEAD~1",
                danger: false,
            },
            Command {
                cmd: "git diff --word-diff",
                desc: "Show the changes word by word.",
                note: "",
                example: "git diff --word-diff README.md",
                danger: false,
            },
            Command {
                cmd: "git ls-files",
                desc: "List the tracked files.",
                note: "",
                example: "git ls-files",
                danger: false,
            },
            Command {
                cmd: "git cat-file -p <commit>",
                desc: "Show the raw content of an object.",
                note: "",
                example: "git cat-file -p HEAD",
                danger: false,
            },
        ],
    }
}

/// The commands of the category "Configuration".
pub open spec fn config_commands() -> Seq<Command> {
    seq![
        Command {
            cmd: "git config --list",
            desc: "Show every configuration value.",
            note: "",
            example: "git config --list --show-origin",
            danger: false,
        },
        Command {
            cmd: "git config --global core.editor <editor>",
            desc: "Set the editor for commit messages.",
            note: "",
            example: "git config --global core.editor vim",
            danger: false,
        },
        Command {
            cmd: "git config --global alias.<alias> <cmd>",
            desc: "Define a shortcut for a command.",
            note: "",
            example: "git config --global alias.co checkout",
            danger: false,
        },
        Command {
            cmd: "git config --global credential.helper <cmd>",
            desc: "Cache your credentials.",
            note: "",
            example: "git config --global credential.helper cache",
            danger: false,
        },
        Command {
            cmd: "git config --global init.defaultBranch <name>",
            desc: "Set the branch name of new repositories.",
            note: "",
            example: "git config --global init.defaultBranch main",
            danger: false,
        },
        Command {
            cmd: "git config --global pull.rebase true",
            desc: "Rebase instead of merging on pull.",
            note: "",
            example: "git config --global pull.rebase true",
            danger: false,
        },
        Command {
            cmd: "git config --global core.autocrlf input",
            desc: "Convert line endings on commit.",
            note: "",
            example: "git config --global core.autocrlf input",
            danger: false,
        },
        Command {
            cmd: "git config --unset <name>",
            desc: "Remove a configuration value.",
            note: "",
            example: "git config --unset user.email",
            danger: false,
        },
        Command {
            cmd: "git config --global color.ui auto",
            desc: "Colour the output of git.",
            note: "",
            example: "git config --global color.ui auto",
            danger: false,
        },
        Command {
            cmd: "git config --edit",
            desc: "Open the configuration in the editor.",
            note: "",
            example: "git config --global --edit",
            danger: false,
        },
    ]
}

fn config_category() -> (c: Category)
    ensures
        c.name == "Configuration",
        c.commands@ == config_commands(),
{
    Category {
        name: "Configuration",
        commands: vec![
            Command {
                cmd: "git config --list",
                desc: "Show every configuration value.",
                note: "",
                example: "git config --list --show-origin",
                danger: false,
            },
            Command {
                cmd: "git config --global core.editor <editor>",
                desc: "Set the editor for commit messages.",
                note: "",
                example: "git config --global core.editor vim",
                danger: false,
            },
            Command {
                cmd: "git config --global alias.<alias> <cmd>",
                desc: "Define a shortcut for a command.",
                note: "",
                example: "git config --global alias.co checkout",
                danger: false,
            },
            Command {
                cmd: "git config --global credential.helper <cmd>",
                desc: "Cache your credentials.",
                note: "",
                example: "git config --global credential.helper cache",
                danger: false,
            },
            Command {
                cmd: "git config --global init.defaultBranch <name>",
                desc: "Set the branch name of new repositories.",
                note: "",
                example: "git config --global init.defaultBranch main",
                danger: false,
            },
            Command {
                cmd: "git config --global pull.rebase true",
                desc: "Rebase instead of merging on pull.",
                note: "",
                example: "git config --global pull.rebase true",
                danger: false,
            },
            Command {
                cmd: "git config --global core.autocrlf input",
                desc: "Convert line endings on commit.",
                note: "",
                example: "git config --global core.autocrlf input",
                danger: false,
            },
            Command {
                cmd: "git config --unset <name>",
                desc: "Remove a configuration value.",
                note: "",
                example: "git config --unset user.email",
                danger: false,
            },
            Command {
                cmd: "git config --global color.ui auto",
                desc: "Colour the output of git.",
                note: "",
                example: "git config --global color.ui auto",
                danger: false,
            },
            Command {
                cmd: "git config --edit",
                desc: "Open the configuration in the editor.",
                note: "",
                example: "git config --global --edit",
                danger: false,
            },
        ],
    }
}

/// The commands of the category "Advanced".
pub open spec fn advanced_commands() -> Seq<Command> {
    seq![
        Command {
            cmd: "git bisect start",
            desc: "Start a binary search for a bad commit.",
            note: "Mark commits with git bisect good/bad.",
            example: "git bisect start\ngit bisect bad\ngit bisect good v1.0.0",
            danger: false,
        },
        Command {
            cmd: "git worktree add <path> <branch>",
            desc: "Check out a branch in another directory.",
            note: "",
            example: "git worktree add ../hotfix hotfix",
            danger: false,
        },
        Command {
            cmd: "git submodule update --init",
            desc: "Fetch the submodules of the repository.",
            note: "",
            example: "git submodule update --init --recursive",
            danger: false,
        },
        Command {
            cmd: "git archive --format=zip <commit>",
            desc: "Export a tree as an archive.",
            note: "",
            example: "git archive --format=zip HEAD > project.zip",
            danger: false,
        },
        Command {
            cmd: "git filter-branch --tree-filter <cmd>",
            desc: "Rewrite every commit of a branch.",
            note: "Rewrites the whole history.",
            example: "git filter-branch --tree-filter 'rm -f secret.txt' HEAD",
            danger: true,
        },
        Command {
            cmd: "git bisect reset",
            desc: "End a bisect session.",
            note: "",
            example: "git bisect reset",
            danger: false,
        },
        Command {
            cmd: "git worktree list",
            desc: "List the worktrees.",
            note: "",
            example: "git worktree list",
            danger: false,
        },
        Command {
            cmd: "git submodule add <url> <path>",
            desc: "Add another repository as a submodule.",
            note: "",
            example: "git submodule add https://example.com/lib.git vendor/lib",
            danger: false,
        },
        Command {
            cmd: "git gc",
            desc: "Clean up and optimise the repository.",
            note: "",
            example: "git gc --prune=now",
            danger: false,
        },
        Command {
            cmd: "git fsck",
            desc: "Check the integrity of the repository.",
            note: "",
            example: "git fsck --full",
            danger: false,
        },
        Command {
            cmd: "git rerere",
            desc: "Reuse recorded conflict resolutions.",
            note: "Enable with rerere.enabled.",
            example: "git config --global rerere.enabled true",
            danger: false,
        },
        Command {
            cmd: "git sparse-checkout set <directory>",
            desc: "Check out only some directories.",
            note: "",
            example: "git sparse-checkout set docs",
            danger: false,
        },
    ]
}

fn advanced_category() -> (c: Category)
    ensures
        c.name == "Advanced",
        c.commands@ == advanced_commands(),
{
    Category {
        name: "Advanced",
        commands: vec![
            Command {
                cmd: "git bisect start",
                desc: "Start a binary search for a bad commit.",
                note: "Mark commits with git bisect good/bad.",
                example: "git bisect start\ngit bisect bad\ngit bisect good v1.0.0",
                danger: false,
            },
            Command {
                cmd: "git worktree add <path> <branch>",
                desc: "Check out a branch in another directory.",
                note: "",
                example: "git worktree add ../hotfix hotfix",
                danger: false,
            },
            Command {
                cmd: "git submodule update --init",
                desc: "Fetch the submodules of the repository.",
                note: "",
                example: "git submodule update --init --recursive",
                danger: false,
            },
            Command {
                cmd: "git archive --format=zip <commit>",
                desc: "Export a tree as an archive.",
                note: "",
                example: "git archive --format=zip HEAD > project.zip",
                danger: false,
            },
            Command {
                cmd: "git filter-branch --tree-filter <cmd>",
                desc: "Rewrite every commit of a branch.",
                note: "Rewrites the whole history.",
                example: "git filter-branch --tree-filter 'rm -f secret.txt' HEAD",
                danger: true,
            },
            Command {
                cmd: "git bisect reset",
                desc: "End a bisect session.",
                note: "",
                example: "git bisect reset",
                danger: false,
            },
            Command {
                cmd: "git worktree list",
                desc: "List the worktrees.",
                note: "",
                example: "git worktree list",
                danger: false,
            },
            Command {
                cmd: "git submodule add <url> <path>",
                desc: "Add another repository as a submodule.",
                note: "",
                example: "git submodule add https://example.com/lib.git vendor/lib",
                danger: false,
            },
            Command {
                cmd: "git gc",
                desc: "Clean up and optimise the repository.",
                note: "",
                example: "git gc --prune=now",
                danger: false,
            },
            Command {
                cmd: "git fsck",
                desc: "Check the integrity of the repository.",
                note: "",
                example: "git fsck --full",
                danger: false,
            },
            Command {
                cmd: "git rerere",
                desc: "Reuse recorded conflict resolutions.",
                note: "Enable with rerere.enabled.",
                example: "git config --global rerere.enabled true",
                danger: false,
            },
            Command {
                cmd: "git sparse-checkout set <directory>",
                desc: "Check out only some directories.",
                note: "",
                example: "git sparse-checkout set docs",
                danger: false,
            },
        ],
    }
}

/// The commands of the category "Getting Help".
pub open spec fn help_commands() -> Seq<Command> {
    seq![
        Command {
            cmd: "git help <cmd>",
            desc: "Open the manual of a command.",
            note: "",
            example: "git help rebase",
            danger: false,
        },
        Command {
            cmd: "git <cmd> -h",
            desc: "Show the short usage of a command.",
            note: "",
            example: "git log -h",
            danger: false,
        },
    ]
}

fn help_category() -> (c: Category)
    ensures
        c.name == "Getting Help",
        c.commands@ == help_commands(),
{
    Category {
        name: "Getting Help",
        commands: vec![
            Command {
                cmd: "git help <cmd>",
                desc: "Open the manual of a command.",
                note: "",
                example: "git help rebase",
                danger: false,
            },
            Command {
                cmd: "git <cmd> -h",
                desc: "Show the short usage of a command.",
                note: "",
                example: "git log -h",
                danger: false,
            },
        ],
    }
}

/// `r` is the built-in catalogue: its categories in order, each with its
/// name and with its commands as the category's spec function lists them.
pub open spec fn is_builtin_catalog(r: Seq<Category>) -> bool {
    &&& r.len() == CATEGORY_COUNT
    &&& r.map_values(|c: Category| c.name) =~= seq![
        "Getting Started",
        "Basics",
        "Branching",
        "Merging & Rebasing",
        "Remote",
        "History & Logs",
        "Undoing Changes",
        "Stashing",
        "Tags",
        "Inspecting & Diffs",
        "Configuration",
        "Advanced",
        "Getting Help",
    ]
    &&& r.map_values(|c: Category| c.commands@.len()) =~= seq![8nat, 11nat, 10nat, 10nat, 11nat, 11nat, 11nat, 9nat, 8nat, 10nat, 10nat, 12nat, 2nat]
    &&& r[0].commands@ =~= setup_commands()
    &&& r[1].commands@ =~= basics_commands()
    &&& r[2].commands@ =~= branch_commands()
    &&& r[3].commands@ =~= merge_commands()
    &&& r[4].commands@ =~= remote_commands()
    &&& r[5].commands@ =~= log_commands()
    &&& r[6].commands@ =~= undo_commands()
    &&& r[7].commands@ =~= stash_commands()
    &&& r[8].commands@ =~= tag_commands()
    &&& r[9].commands@ =~= diff_commands()
    &&& r[10].commands@ =~= config_commands()
    &&& r[11].commands@ =~= advanced_commands()
    &&& r[12].commands@ =~= help_commands()
}

/// The built-in catalogue.
pub fn categories() -> (r: Vec<Category>)
    ensures
        is_builtin_catalog(r@),
        catalog_size(r@) == COMMAND_COUNT,
        catalog_fits(r@),
{
    let r = vec![
        setup_category(),
        basics_category(),
        branch_category(),
        merge_category(),
        remote_category(),
        log_category(),
        undo_category(),
        stash_category(),
        tag_category(),
        diff_category(),
        config_category(),
        advanced_category(),
        help_category(),
    ];
    proof {
        reveal_with_fuel(catalog_size, 14);
    }
    r
}

} // verus!
