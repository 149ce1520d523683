//! `track`: starts a shell in the worktree of a branch.

use vstd::prelude::*;

use super::{
    ask_list, ask_root, entries_of, fail, list_outcome, list_query, root_of, root_outcome, root_query, Action, ActionView,
    Awaiting, Event, EventView, Message, MessageView,
};
use crate::multitree::{branch_ref, choose_shell, heads_ref, shell_choice, ErrorView, MultiTree, MultiTreeError};
use crate::text::trim;
use crate::worktree::{entries_view, first_with_branch, lemma_first_with_branch, position_of_branch};

verus! {

/// The steps of `track`.
#[derive(Clone, Copy)]
pub enum TrackStage {
    /// Nothing has happened yet.
    Begin,
    /// The root of the repository was asked for.
    Root,
    /// The worktrees were asked for.
    Listing,
    /// The user is being told where the shell starts.
    Announce,
    /// The shell runs.
    Shell,
    /// The user is being told that the shell failed.
    Warn,
    /// The command is over.
    Over,
}

/// `track` under way.
pub struct TrackFlow {
    name: String,
    preferred: String,
    env_shell: Option<String>,
    windows: bool,
    stage: TrackStage,
    root: String,
    path: String,
    shell: String,
}

/// `TrackFlow` as plain values.
pub struct TrackState {
    pub name: Seq<char>,
    pub preferred: Seq<char>,
    pub env_shell: Option<Seq<char>>,
    pub windows: bool,
    pub stage: TrackStage,
    pub root: Seq<char>,
    pub path: Seq<char>,
    pub shell: Seq<char>,
}

impl TrackFlow {
    pub closed spec fn view(&self) -> TrackState {
        TrackState {
            name: self.name@,
            preferred: self.preferred@,
            env_shell: self.env_shell.deep_view(),
            windows: self.windows,
            stage: self.stage,
            root: self.root@,
            path: self.path@,
            shell: self.shell@,
        }
    }
}

/// The kind of event that `track` waits for at `stage`.
pub open spec fn track_awaits(stage: TrackStage) -> Awaiting {
    match stage {
        TrackStage::Begin => Awaiting::Start,
        TrackStage::Root | TrackStage::Listing => Awaiting::Git,
        TrackStage::Announce | TrackStage::Warn => Awaiting::Shown,
        TrackStage::Shell => Awaiting::Shell,
        TrackStage::Over => Awaiting::Nothing,
    }
}

/// `s` at the end of the command.
pub open spec fn track_over(s: TrackState) -> TrackState {
    TrackState { stage: TrackStage::Over, ..s }
}

/// One step of `track`: the state after the event `e` and the action to take.
/// The root is asked for, then the worktrees; the worktree of the branch is looked up and
/// named to the user; then the chosen shell starts there. A shell that ends with a failure
/// is reported, and the command still succeeds.
pub open spec fn track_next(s: TrackState, e: EventView) -> (TrackState, ActionView) {
    match s.stage {
        TrackStage::Begin => (TrackState { stage: TrackStage::Root, ..s }, root_query()),
        TrackStage::Root => match root_outcome(e) {
            Err(err) => (track_over(s), ActionView::Finish(Err(err))),
            Ok(root) => (TrackState { stage: TrackStage::Listing, root, ..s }, list_query(root)),
        },
        TrackStage::Listing => match list_outcome(e) {
            Err(err) => (track_over(s), ActionView::Finish(Err(err))),
            Ok(entries) => match first_with_branch(entries, heads_ref(s.name)) {
                None => (track_over(s), ActionView::Finish(Err(ErrorView::WorktreeNotFound(s.name)))),
                Some(i) => (
                    TrackState { stage: TrackStage::Announce, path: entries[i].0, ..s },
                    ActionView::Show(MessageView::Tracking { name: s.name, path: entries[i].0 }),
                ),
            },
        },
        TrackStage::Announce => {
            let shell = shell_choice(s.preferred, s.env_shell, s.windows);
            (TrackState { stage: TrackStage::Shell, shell, ..s }, ActionView::Shell { shell, path: s.path })
        },
        TrackStage::Shell => match e {
            EventView::ShellNotStarted(m) => (
                track_over(s),
                ActionView::Finish(Err(ErrorView::SpawnShell { shell: s.shell, source: m })),
            ),
            EventView::ShellNotAwaited(m) => (track_over(s), ActionView::Finish(Err(ErrorView::GitCommandFailed(m)))),
            _ => if e->ShellExited_success {
                (track_over(s), ActionView::Finish(Ok(())))
            } else {
                (
                    TrackState { stage: TrackStage::Warn, ..s },
                    ActionView::Show(MessageView::ShellFailed(e->ShellExited_status)),
                )
            },
        },
        TrackStage::Warn => (track_over(s), ActionView::Finish(Ok(()))),
        // No event fits this stage.
        TrackStage::Over => (s, ActionView::Finish(Ok(()))),
    }
}

impl MultiTree {
    /// Begins `track` of the worktree of branch `name`. `env_shell` is the `SHELL` of the
    /// environment, when set; `windows` says whether the tool runs on Windows.
    pub fn track_worktree(&self, name: String, env_shell: Option<String>, windows: bool) -> (r: TrackFlow)
        ensures
            r.view() == (TrackState {
                name: name@,
                preferred: self.config_view().settings().preferred_shell,
                env_shell: env_shell.deep_view(),
                windows,
                stage: TrackStage::Begin,
                root: Seq::empty(),
                path: Seq::empty(),
                shell: Seq::empty(),
            }),
    {
        let preferred = self.config().ui_config().preferred_shell.clone();
        TrackFlow {
            name,
            preferred,
            env_shell,
            windows,
            stage: TrackStage::Begin,
            root: String::new(),
            path: String::new(),
            shell: String::new(),
        }
    }
}

impl TrackFlow {
    /// The kind of event that the command waits for.
    pub fn awaiting(&self) -> (r: Awaiting)
        ensures
            r == track_awaits(self.view().stage),
    {
        match self.stage {
            TrackStage::Begin => Awaiting::Start,
            TrackStage::Root | TrackStage::Listing => Awaiting::Git,
            TrackStage::Announce | TrackStage::Warn => Awaiting::Shown,
            TrackStage::Shell => Awaiting::Shell,
            TrackStage::Over => Awaiting::Nothing,
        }
    }

    /// Takes the event `e` and gives the next action; see `track_next`.
    pub fn step(&mut self, e: Event) -> (a: Action)
        requires
            super::event_fits(track_awaits(old(self).view().stage), e.view()),
        ensures
            (final(self).view(), a.view()) == track_next(old(self).view(), e.view()),
    {
        match self.stage {
            TrackStage::Begin => {
                self.stage = TrackStage::Root;
                ask_root()
            },
            TrackStage::Root => match root_of(e) {
                Ok(root) => {
                    self.stage = TrackStage::Listing;
                    self.root = root;
                    ask_list(&self.root)
                },
                Err(err) => {
                    self.stage = TrackStage::Over;
                    fail(err)
                },
            },
            TrackStage::Listing => match entries_of(e) {
                Err(err) => {
                    self.stage = TrackStage::Over;
                    fail(err)
                },
                Ok(entries) => {
                    let target = branch_ref(self.name.as_str());
                    proof {
                        lemma_first_with_branch(entries_view(entries@), target@);
                    }
                    match position_of_branch(&entries, &target) {
                        None => {
                            self.stage = TrackStage::Over;
                            fail(MultiTreeError::WorktreeNotFound(self.name.clone()))
                        },
                        Some(i) => {
                            assert(entries_view(entries@)[i as int] == entries@[i as int].view());
                            self.stage = TrackStage::Announce;
                            self.path = entries[i].path.clone();
                            Action::Show(Message::Tracking { name: self.name.clone(), path: self.path.clone() })
                        },
                    }
                },
            },
            TrackStage::Announce => {
                let env_shell = match &self.env_shell {
                    Some(s) => Some(s.clone()),
                    None => None,
                };
                self.shell = choose_shell(self.preferred.as_str(), env_shell, self.windows);
                self.stage = TrackStage::Shell;
                Action::Shell { shell: self.shell.clone(), path: self.path.clone() }
            },
            TrackStage::Shell => match e {
                Event::ShellNotStarted(m) => {
                    self.stage = TrackStage::Over;
                    fail(MultiTreeError::SpawnShell { shell: self.shell.clone(), source: m })
                },
                Event::ShellNotAwaited(m) => {
                    self.stage = TrackStage::Over;
                    fail(MultiTreeError::GitCommandFailed(m))
                },
                Event::ShellExited { success, status } => if success {
                    self.stage = TrackStage::Over;
                    Action::Finish(Ok(()))
                } else {
                    self.stage = TrackStage::Warn;
                    Action::Show(Message::ShellFailed(status))
                },
                _ => {
                    proof {
                        assert(false);
                    }
                    Action::Ask
                },
            },
            TrackStage::Warn => {
                self.stage = TrackStage::Over;
                Action::Finish(Ok(()))
            },
            TrackStage::Over => {
                proof {
                    assert(false);
                }
                Action::Ask
            },
        }
    }
}

/// The shell that `track` starts, in the worktree it announced, is the preferred shell of the
/// settings, trimmed, whenever that is not blank, whatever `SHELL` says; `SHELL` counts only
/// when the preferred shell is blank, and without it the shell is `cmd` on Windows and
/// `/bin/bash` elsewhere.
pub proof fn law_track_prefers_configured_shell(s: TrackState, e: EventView)
    requires
        s.stage is Announce,
    ensures
        ({
            let a = track_next(s, e).1;
            if trim(s.preferred).len() > 0 {
                a == ActionView::Shell { shell: trim(s.preferred), path: s.path }
            } else {
                match s.env_shell {
                    Some(x) => a == ActionView::Shell { shell: x, path: s.path },
                    None => a == ActionView::Shell {
                        shell: if s.windows { "cmd"@ } else { "/bin/bash"@ },
                        path: s.path,
                    },
                }
            }
        }),
{
}

} // verus!
