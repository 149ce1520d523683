//! The commands of the tool, each a machine that decides the next step from what the last
//! one brought. The caller runs git, shows messages, asks the user and starts shells as the
//! actions say, and hands back what came of each.

pub mod clean;
pub mod add;
pub mod list;
pub mod remove;
pub mod track;

use vstd::prelude::*;

use crate::multitree::{owned, root_from_output, ErrorView, MultiTreeError};
use crate::text::trim;
use crate::worktree::{entries_view, parse_worktree_list, porcelain_entries, EntryView, WorktreeEntry};

verus! {

/// What came of the last action.
pub enum Event {
    /// The command begins.
    Start,
    /// git ran to its end: whether it succeeded, what it printed (when captured), and its
    /// exit status as text.
    GitRan { success: bool, stdout: String, stderr: String, status: String },
    /// git could not be run; the text says why.
    GitNotRun(String),
    /// The line the user typed.
    Answer(String),
    /// The user's answer could not be read; the text says why.
    AnswerNotRead(String),
    /// The message was shown.
    Shown,
    /// The shell could not be started; the text says why.
    ShellNotStarted(String),
    /// Waiting for the shell failed; the text says why.
    ShellNotAwaited(String),
    /// The shell ended: whether it succeeded, and its exit status as text.
    ShellExited { success: bool, status: String },
}

/// An `Event` as plain text.
pub enum EventView {
    Start,
    GitRan { success: bool, stdout: Seq<char>, stderr: Seq<char>, status: Seq<char> },
    GitNotRun(Seq<char>),
    Answer(Seq<char>),
    AnswerNotRead(Seq<char>),
    Shown,
    ShellNotStarted(Seq<char>),
    ShellNotAwaited(Seq<char>),
    ShellExited { success: bool, status: Seq<char> },
}

impl Event {
    pub open spec fn view(&self) -> EventView {
        match self {
            Event::Start => EventView::Start,
            Event::GitRan { success, stdout, stderr, status } => EventView::GitRan {
                success: *success,
                stdout: stdout@,
                stderr: stderr@,
                status: status@,
            },
            Event::GitNotRun(e) => EventView::GitNotRun(e@),
            Event::Answer(a) => EventView::Answer(a@),
            Event::AnswerNotRead(e) => EventView::AnswerNotRead(e@),
            Event::Shown => EventView::Shown,
            Event::ShellNotStarted(e) => EventView::ShellNotStarted(e@),
            Event::ShellNotAwaited(e) => EventView::ShellNotAwaited(e@),
            Event::ShellExited { success, status } => EventView::ShellExited { success: *success, status: status@ },
        }
    }
}

/// What the user is told.
pub enum Message {
    /// The worktree was added.
    Added,
    /// The worktree of branch `name` at `path` is about to be removed.
    Removing { name: String, path: String },
    /// A shell is about to start in the worktree of branch `name` at `path`.
    Tracking { name: String, path: String },
    /// The shell ended with a failure; its exit status as text.
    ShellFailed(String),
    /// The worktrees, each as its branch label and path.
    Worktrees(Vec<(String, String)>),
    /// `clean` found nothing to remove.
    NothingToClean,
    /// The worktrees that `clean` is about to remove, each as its branch and path.
    Candidates(Vec<(String, String)>),
    /// Removing the worktree at this path failed.
    RemoveFailed(String),
    /// Deleting this local branch failed.
    DeleteFailed(String),
}

/// A `Message` as plain text.
pub enum MessageView {
    Added,
    Removing { name: Seq<char>, path: Seq<char> },
    Tracking { name: Seq<char>, path: Seq<char> },
    ShellFailed(Seq<char>),
    Worktrees(Seq<(Seq<char>, Seq<char>)>),
    NothingToClean,
    Candidates(Seq<(Seq<char>, Seq<char>)>),
    RemoveFailed(Seq<char>),
    DeleteFailed(Seq<char>),
}

impl Message {
    pub open spec fn view(&self) -> MessageView {
        match self {
            Message::Added => MessageView::Added,
            Message::Removing { name, path } => MessageView::Removing { name: name@, path: path@ },
            Message::Tracking { name, path } => MessageView::Tracking { name: name@, path: path@ },
            Message::ShellFailed(s) => MessageView::ShellFailed(s@),
            Message::Worktrees(v) => MessageView::Worktrees(v.deep_view()),
            Message::NothingToClean => MessageView::NothingToClean,
            Message::Candidates(v) => MessageView::Candidates(v.deep_view()),
            Message::RemoveFailed(s) => MessageView::RemoveFailed(s@),
            Message::DeleteFailed(s) => MessageView::DeleteFailed(s@),
        }
    }
}

/// What the caller is to do next.
pub enum Action {
    /// Run git with `args`, in the directory `dir` when one is given; `capture` says whether
    /// its output is collected (else it goes to the terminal).
    Git { dir: Option<String>, args: Vec<String>, capture: bool },
    /// Tell the user.
    Show(Message),
    /// Ask `Proceed? (y/N): ` and read a line.
    Ask,
    /// Start `shell` in the directory `path` and wait for it to end.
    Shell { shell: String, path: String },
    /// The command is over, with this outcome.
    Finish(Result<(), MultiTreeError>),
}

/// An `Action` as plain text.
pub enum ActionView {
    Git { dir: Option<Seq<char>>, args: Seq<Seq<char>>, capture: bool },
    Show(MessageView),
    Ask,
    Shell { shell: Seq<char>, path: Seq<char> },
    Finish(Result<(), ErrorView>),
}

impl Action {
    pub open spec fn view(&self) -> ActionView {
        match self {
            Action::Git { dir, args, capture } => ActionView::Git {
                dir: dir.deep_view(),
                args: args.deep_view(),
                capture: *capture,
            },
            Action::Show(m) => ActionView::Show(m.view()),
            Action::Ask => ActionView::Ask,
            Action::Shell { shell, path } => ActionView::Shell { shell: shell@, path: path@ },
            Action::Finish(r) => ActionView::Finish(
                match r {
                    Ok(()) => Ok(()),
                    Err(e) => Err(e.view()),
                },
            ),
        }
    }
}

/// The kind of event that a machine waits for.
pub enum Awaiting {
    Start,
    Git,
    Answer,
    Shown,
    Shell,
    Nothing,
}

/// Whether `e` is of the kind `w`.
pub open spec fn event_fits(w: Awaiting, e: EventView) -> bool {
    match w {
        Awaiting::Start => e is Start,
        Awaiting::Git => e is GitRan || e is GitNotRun,
        Awaiting::Answer => e is Answer || e is AnswerNotRead,
        Awaiting::Shown => e is Shown,
        Awaiting::Shell => e is ShellNotStarted || e is ShellNotAwaited || e is ShellExited,
        Awaiting::Nothing => false,
    }
}

/// Whether `e` is of the kind `w`; see `event_fits`.
pub fn fits(w: &Awaiting, e: &Event) -> (r: bool)
    ensures
        r == event_fits(*w, e.view()),
{
    match w {
        Awaiting::Start => matches!(e, Event::Start),
        Awaiting::Git => matches!(e, Event::GitRan { .. }) || matches!(e, Event::GitNotRun(_)),
        Awaiting::Answer => matches!(e, Event::Answer(_)) || matches!(e, Event::AnswerNotRead(_)),
        Awaiting::Shown => matches!(e, Event::Shown),
        Awaiting::Shell => matches!(e, Event::ShellNotStarted(_)) || matches!(e, Event::ShellNotAwaited(_))
            || matches!(e, Event::ShellExited { .. }),
        Awaiting::Nothing => false,
    }
}

/// `[a, b]` as git arguments.
pub fn args2(a: String, b: String) -> (r: Vec<String>)
    ensures
        r.deep_view() == seq![a@, b@],
{
    let mut r = Vec::new();
    r.push(a);
    r.push(b);
    assert(r.deep_view() =~= seq![a@, b@]);
    r
}

/// `[a, b, c]` as git arguments.
pub fn args3(a: String, b: String, c: String) -> (r: Vec<String>)
    ensures
        r.deep_view() == seq![a@, b@, c@],
{
    let mut r = Vec::new();
    r.push(a);
    r.push(b);
    r.push(c);
    assert(r.deep_view() =~= seq![a@, b@, c@]);
    r
}

/// `[a, b, c, d]` as git arguments.
pub fn args4(a: String, b: String, c: String, d: String) -> (r: Vec<String>)
    ensures
        r.deep_view() == seq![a@, b@, c@, d@],
{
    let mut r = Vec::new();
    r.push(a);
    r.push(b);
    r.push(c);
    r.push(d);
    assert(r.deep_view() =~= seq![a@, b@, c@, d@]);
    r
}

/// `[a, b, c, d, e, f]` as git arguments.
pub fn args6(a: String, b: String, c: String, d: String, e: String, f: String) -> (r: Vec<String>)
    ensures
        r.deep_view() == seq![a@, b@, c@, d@, e@, f@],
{
    let mut r = Vec::new();
    r.push(a);
    r.push(b);
    r.push(c);
    r.push(d);
    r.push(e);
    r.push(f);
    assert(r.deep_view() =~= seq![a@, b@, c@, d@, e@, f@]);
    r
}

/// The question for the root of the repository: `git rev-parse --show-toplevel`, its output
/// collected.
pub open spec fn root_query() -> ActionView {
    ActionView::Git { dir: None, args: seq!["rev-parse"@, "--show-toplevel"@], capture: true }
}

/// Asks git for the root of the repository; see `root_query`.
pub fn ask_root() -> (a: Action)
    ensures
        a.view() == root_query(),
{
    Action::Git { dir: None, args: args2(owned("rev-parse"), owned("--show-toplevel")), capture: true }
}

/// What the answer `e` to the root query brings: the root, which is git's output trimmed;
/// or, when git could not run, that error, and when it failed, that this is no repository.
pub open spec fn root_outcome(e: EventView) -> Result<Seq<char>, ErrorView> {
    match e {
        EventView::GitRan { success, stdout, .. } => if success {
            Ok(trim(stdout))
        } else {
            Err(ErrorView::NotGitRepo)
        },
        EventView::GitNotRun(m) => Err(ErrorView::GitCommandFailed(m)),
        _ => Err(ErrorView::NotGitRepo),
    }
}

/// Reads the answer to the root query; see `root_outcome`.
pub fn root_of(e: Event) -> (r: Result<String, MultiTreeError>)
    ensures
        match (r, root_outcome(e.view())) {
            (Ok(a), Ok(b)) => a@ == b,
            (Err(a), Err(b)) => a.view() == b,
            _ => false,
        },
{
    match e {
        Event::GitRan { success, stdout, .. } => if success {
            Ok(root_from_output(stdout.as_str()))
        } else {
            Err(MultiTreeError::NotGitRepo)
        },
        Event::GitNotRun(m) => Err(MultiTreeError::GitCommandFailed(m)),
        _ => Err(MultiTreeError::NotGitRepo),
    }
}

/// The question for the worktrees: `git worktree list --porcelain` in the root, its output
/// collected.
pub open spec fn list_query(root: Seq<char>) -> ActionView {
    ActionView::Git {
        dir: Some(root),
        args: seq!["worktree"@, "list"@, "--porcelain"@],
        capture: true,
    }
}

/// Asks git for the worktrees of the repository at `root`; see `list_query`.
pub fn ask_list(root: &String) -> (a: Action)
    ensures
        a.view() == list_query(root@),
{
    Action::Git {
        dir: Some(root.clone()),
        args: args3(owned("worktree"), owned("list"), owned("--porcelain")),
        capture: true,
    }
}

/// What the answer `e` to the worktree query brings: the worktrees that git listed; or, when
/// git could not run, that error, and when it failed, an error with what it printed to stderr.
pub open spec fn list_outcome(e: EventView) -> Result<Seq<EntryView>, ErrorView> {
    match e {
        EventView::GitRan { success, stdout, stderr, .. } => if success {
            Ok(porcelain_entries(stdout))
        } else {
            Err(ErrorView::GitCommandFailed(stderr))
        },
        EventView::GitNotRun(m) => Err(ErrorView::GitCommandFailed(m)),
        _ => Err(ErrorView::ParseWorktreeList),
    }
}

/// Reads the answer to the worktree query; see `list_outcome`.
pub fn entries_of(e: Event) -> (r: Result<Vec<WorktreeEntry>, MultiTreeError>)
    ensures
        match (r, list_outcome(e.view())) {
            (Ok(a), Ok(b)) => entries_view(a@) == b,
            (Err(a), Err(b)) => a.view() == b,
            _ => false,
        },
{
    match e {
        Event::GitRan { success, stdout, stderr, .. } => if success {
            Ok(parse_worktree_list(stdout.as_str()))
        } else {
            Err(MultiTreeError::GitCommandFailed(stderr))
        },
        Event::GitNotRun(m) => Err(MultiTreeError::GitCommandFailed(m)),
        _ => Err(MultiTreeError::ParseWorktreeList),
    }
}

/// Ends the command with `e`.
pub fn fail(e: MultiTreeError) -> (a: Action)
    ensures
        a.view() == ActionView::Finish(Err(e.view())),
{
    Action::Finish(Err(e))
}

} // verus!
