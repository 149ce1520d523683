//! The tool itself: its settings, its errors, and the answers it reads from git and the user.

use vstd::prelude::*;

use crate::config::config::{Config, Created};
use crate::text::{chars_of, has_prefix, string_of, trim, trimmed};
use crate::worktree::{
    entries_view, lemma_first_with_branch, parse_worktree_list, porcelain_entries, position_of_branch, EntryView,
    WorktreeEntry,
};

verus! {

/// What can go wrong while managing worktrees.
#[derive(Debug)]
pub enum MultiTreeError {
    /// The current directory is not inside a git repository.
    NotGitRepo,
    /// A git command could not run, or failed; the text says how.
    GitCommandFailed(String),
    /// No worktree has the named branch checked out.
    WorktreeNotFound(String),
    /// The worktree list could not be read.
    ParseWorktreeList,
    /// The repository root has no parent directory.
    MissingRepoParent,
    /// The user's answer could not be read; the text says why.
    ReadUserInput(String),
    /// The shell could not be started; `source` says why.
    SpawnShell { shell: String, source: String },
}

/// A `MultiTreeError` as plain text.
pub enum ErrorView {
    NotGitRepo,
    GitCommandFailed(Seq<char>),
    WorktreeNotFound(Seq<char>),
    ParseWorktreeList,
    MissingRepoParent,
    ReadUserInput(Seq<char>),
    SpawnShell { shell: Seq<char>, source: Seq<char> },
}

impl MultiTreeError {
    pub open spec fn view(&self) -> ErrorView {
        match self {
            MultiTreeError::NotGitRepo => ErrorView::NotGitRepo,
            MultiTreeError::GitCommandFailed(s) => ErrorView::GitCommandFailed(s@),
            MultiTreeError::WorktreeNotFound(s) => ErrorView::WorktreeNotFound(s@),
            MultiTreeError::ParseWorktreeList => ErrorView::ParseWorktreeList,
            MultiTreeError::MissingRepoParent => ErrorView::MissingRepoParent,
            MultiTreeError::ReadUserInput(s) => ErrorView::ReadUserInput(s@),
            MultiTreeError::SpawnShell { shell, source } => ErrorView::SpawnShell { shell: shell@, source: source@ },
        }
    }
}

/// The worktree manager, with the settings it works by.
pub struct MultiTree {
    config: Config<Created>,
}

impl MultiTree {
    #[verifier::type_invariant]
    spec fn inv(self) -> bool {
        self.config.wf()
    }

    /// The settings the manager works by.
    pub closed spec fn config_view(&self) -> &Config<Created> {
        &self.config
    }

    /// A manager that works by `config`.
    pub fn new(config: Config<Created>) -> (r: Self)
        requires
            config.wf(),
        ensures
            r.config_view() == config,
    {
        MultiTree { config }
    }

    /// The settings the manager works by.
    pub fn config(&self) -> (r: &Config<Created>)
        ensures
            r == self.config_view(),
            r.wf(),
    {
        proof {
            use_type_invariant(self);
        }
        &self.config
    }

    /// The worktree, among those that the porcelain listing `porcelain` describes, that has
    /// the local branch `name` checked out; the first such one when there are several.
    pub fn find_worktree_by_branch(&self, porcelain: &str, name: &str) -> (r: Result<WorktreeEntry, MultiTreeError>)
        ensures
            found_by_branch(porcelain_entries(porcelain@), heads_ref(name@), r),
            r matches Err(e) ==> e matches MultiTreeError::WorktreeNotFound(n) && n@ == name@,
    {
        let entries = parse_worktree_list(porcelain);
        let target = branch_ref(name);
        find_entry(&entries, &target, name)
    }
}

/// `refs/heads/`, the namespace of local branches.
pub open spec fn heads_prefix() -> Seq<char> {
    seq!['r', 'e', 'f', 's', '/', 'h', 'e', 'a', 'd', 's', '/']
}

/// The ref of the local branch `name`.
pub open spec fn heads_ref(name: Seq<char>) -> Seq<char> {
    heads_prefix() + name
}

/// `r` is the first of `entries` whose branch is `target`, or an error when there is none.
pub open spec fn found_by_branch(
    entries: Seq<EntryView>,
    target: Seq<char>,
    r: Result<WorktreeEntry, MultiTreeError>,
) -> bool {
    match r {
        Ok(e) => exists|i: int|
            0 <= i < entries.len() && entries[i] == e.view() && entries[i].1 == Some(target)
                && forall|j: int| 0 <= j < i ==> entries[j].1 != Some(target),
        Err(_) => forall|i: int| 0 <= i < entries.len() ==> entries[i].1 != Some(target),
    }
}

/// A `String` holding `s`.
pub fn owned(s: &str) -> (r: String)
    ensures
        r@ == s@,
{
    s.to_owned()
}

/// The ref of the local branch `name`: `refs/heads/` followed by `name`.
pub fn branch_ref(name: &str) -> (r: String)
    ensures
        r@ == heads_ref(name@),
{
    let mut r = owned("refs/heads/");
    proof {
        reveal_strlit("refs/heads/");
    }
    assert(r@ == heads_prefix());
    r.append(name);
    r
}

/// A copy of the worktree `e`.
pub fn copy_entry(e: &WorktreeEntry) -> (r: WorktreeEntry)
    ensures
        r.view() == e.view(),
{
    let branch = match &e.branch {
        Some(b) => Some(b.clone()),
        None => None,
    };
    WorktreeEntry { path: e.path.clone(), branch }
}

fn find_entry(entries: &Vec<WorktreeEntry>, target: &String, name: &str) -> (r: Result<WorktreeEntry, MultiTreeError>)
    ensures
        found_by_branch(entries_view(entries@), target@, r),
        r matches Err(e) ==> e matches MultiTreeError::WorktreeNotFound(n) && n@ == name@,
{
    proof {
        lemma_first_with_branch(entries_view(entries@), target@);
    }
    match position_of_branch(entries, target) {
        Some(i) => Ok(copy_entry(&entries[i])),
        None => Err(MultiTreeError::WorktreeNotFound(owned(name))),
    }
}

} // verus!

verus! {

/// The answers that confirm: `y`, `Y`, `yes`, `YES` or `Yes`.
pub open spec fn is_yes(answer: Seq<char>) -> bool {
    ||| answer == "y"@
    ||| answer == "Y"@
    ||| answer == "yes"@
    ||| answer == "YES"@
    ||| answer == "Yes"@
}

/// Whether the line the user typed confirms, once white space is cut from its ends.
pub fn is_affirmative(input: &str) -> (r: bool)
    ensures
        r == is_yes(trim(input@)),
{
    let t = trimmed(input);
    t == owned("y") || t == owned("Y") || t == owned("yes") || t == owned("YES") || t == owned("Yes")
}

/// The repository root that `git rev-parse --show-toplevel` printed: its output, trimmed.
pub fn root_from_output(stdout: &str) -> (r: String)
    ensures
        r@ == trim(stdout@),
{
    trimmed(stdout)
}

/// The shell to start in a worktree: the preferred shell when it is not blank, trimmed; else
/// the `SHELL` of the environment when it is set; else `cmd` on Windows and `/bin/bash` elsewhere.
pub open spec fn shell_choice(preferred: Seq<char>, env_shell: Option<Seq<char>>, windows: bool) -> Seq<char> {
    if trim(preferred).len() > 0 {
        trim(preferred)
    } else {
        match env_shell {
            Some(s) => s,
            None => if windows { "cmd"@ } else { "/bin/bash"@ },
        }
    }
}

/// Chooses the shell to start in a worktree; see `shell_choice`.
pub fn choose_shell(preferred: &str, env_shell: Option<String>, windows: bool) -> (r: String)
    ensures
        r@ == shell_choice(preferred@, env_shell.deep_view(), windows),
{
    let p = trimmed(preferred);
    if !p.as_str().is_empty() {
        p
    } else {
        match env_shell {
            Some(s) => s,
            None => if windows { owned("cmd") } else { owned("/bin/bash") },
        }
    }
}

/// The name of the local branch that `branch_ref` names, when it is one: the ref without
/// `refs/heads/`.
pub open spec fn local_branch(branch_ref: Seq<char>) -> Option<Seq<char>> {
    if heads_prefix().len() <= branch_ref.len() && branch_ref.take(heads_prefix().len() as int) == heads_prefix() {
        Some(branch_ref.skip(heads_prefix().len() as int))
    } else {
        None
    }
}

/// The local branch that the ref `r` names, if it does.
pub fn local_branch_of(r: &String) -> (b: Option<String>)
    ensures
        b.deep_view() == local_branch(r@),
{
    let v = chars_of(r.as_str());
    let prefix = chars_of("refs/heads/");
    proof {
        reveal_strlit("refs/heads/");
    }
    assert(prefix@ == heads_prefix());
    assert(v@.subrange(0, v@.len() as int) == v@);
    if has_prefix(&v, 0, v.len(), &prefix) {
        let b = string_of(&v, 11, v.len());
        assert(v@.subrange(11, v@.len() as int) == v@.skip(11));
        Some(b)
    } else {
        None
    }
}

/// `(detached)`, shown for a worktree without a local branch.
pub open spec fn detached_label() -> Seq<char> {
    "(detached)"@
}

/// How the list shows the branch of `e`: its local branch name, or `(detached)` when no
/// local branch is checked out there.
pub open spec fn branch_label(e: EntryView) -> Seq<char> {
    match e.1 {
        Some(r) => match local_branch(r) {
            Some(b) => b,
            None => detached_label(),
        },
        None => detached_label(),
    }
}

/// The branch label of `e`; see `branch_label`.
pub fn display_branch(e: &WorktreeEntry) -> (r: String)
    ensures
        r@ == branch_label(e.view()),
{
    match &e.branch {
        Some(b) => match local_branch_of(b) {
            Some(name) => name,
            None => owned("(detached)"),
        },
        None => owned("(detached)"),
    }
}

} // verus!
