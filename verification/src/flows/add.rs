//! `add`: creates a worktree for a branch, and the branch itself when it does not exist yet.

use vstd::prelude::*;

use super::{args4, args6, ask_root, fail, root_of, root_outcome, root_query, Action, ActionView, Awaiting, Event, EventView, MessageView, Message};
use crate::config::config_file::PathResolution;
use crate::multitree::{branch_ref, heads_ref, owned, ErrorView, MultiTree, MultiTreeError};
use crate::paths::{worktree_location, worktree_path};
use crate::config::config_file::PathConfig;

verus! {

/// The steps of `add`.
#[derive(Clone, Copy)]
pub enum AddStage {
    /// Nothing has happened yet.
    Begin,
    /// The root of the repository was asked for.
    Root,
    /// Whether the branch exists was asked.
    Branch,
    /// git was asked to add the worktree.
    Adding,
    /// The user is being told of the new worktree.
    Announce,
    /// The command is over.
    Over,
}

/// `add` under way.
pub struct AddFlow {
    name: String,
    path: Option<String>,
    paths: PathConfig,
    base_branch: String,
    stage: AddStage,
    root: String,
    target: String,
}

/// `AddFlow` as plain values.
pub struct AddState {
    pub name: Seq<char>,
    pub path: Option<Seq<char>>,
    pub resolution: PathResolution,
    pub custom_base: Seq<char>,
    pub base_branch: Seq<char>,
    pub stage: AddStage,
    pub root: Seq<char>,
    pub target: Seq<char>,
}

impl AddFlow {
    pub closed spec fn view(&self) -> AddState {
        AddState {
            name: self.name@,
            path: self.path.deep_view(),
            resolution: self.paths.resolution,
            custom_base: self.paths.custom_base@,
            base_branch: self.base_branch@,
            stage: self.stage,
            root: self.root@,
            target: self.target@,
        }
    }
}

/// The kind of event that `add` waits for at `stage`.
pub open spec fn add_awaits(stage: AddStage) -> Awaiting {
    match stage {
        AddStage::Begin => Awaiting::Start,
        AddStage::Root | AddStage::Branch | AddStage::Adding => Awaiting::Git,
        AddStage::Announce => Awaiting::Shown,
        AddStage::Over => Awaiting::Nothing,
    }
}

/// The arguments that make git add the worktree at `target` for the branch `name`: it checks
/// the branch out when it exists, and otherwise creates it from `base`.
pub open spec fn add_args(exists: bool, name: Seq<char>, target: Seq<char>, base: Seq<char>) -> Seq<Seq<char>> {
    if exists {
        seq!["worktree"@, "add"@, target, name]
    } else {
        seq!["worktree"@, "add"@, "-b"@, name, target, base]
    }
}

/// `s` at the end of the command.
pub open spec fn add_over(s: AddState) -> AddState {
    AddState { stage: AddStage::Over, ..s }
}

/// One step of `add`: the state after the event `e` and the action to take.
/// First the root of the repository is asked for; then the place of the new worktree is
/// worked out from the settings, and whether the branch exists is asked; then git adds the
/// worktree, and the user is told when it did.
pub open spec fn add_next(s: AddState, e: EventView) -> (AddState, ActionView) {
    match s.stage {
        AddStage::Begin => (AddState { stage: AddStage::Root, ..s }, root_query()),
        AddStage::Root => match root_outcome(e) {
            Err(err) => (add_over(s), ActionView::Finish(Err(err))),
            Ok(root) => match worktree_location(root, s.path, s.resolution, s.custom_base, s.name) {
                None => (add_over(s), ActionView::Finish(Err(ErrorView::MissingRepoParent))),
                Some(target) => (
                    AddState { stage: AddStage::Branch, root, target, ..s },
                    ActionView::Git {
                        dir: Some(root),
                        args: seq!["show-ref"@, "--verify"@, "--quiet"@, heads_ref(s.name)],
                        capture: false,
                    },
                ),
            },
        },
        AddStage::Branch => match e {
            EventView::GitRan { success, .. } => (
                AddState { stage: AddStage::Adding, ..s },
                ActionView::Git {
                    dir: Some(s.root),
                    args: add_args(success, s.name, s.target, s.base_branch),
                    capture: true,
                },
            ),
            _ => (add_over(s), ActionView::Finish(Err(ErrorView::GitCommandFailed(e->GitNotRun_0)))),
        },
        AddStage::Adding => match e {
            EventView::GitRan { success, stderr, .. } => if success {
                (AddState { stage: AddStage::Announce, ..s }, ActionView::Show(MessageView::Added))
            } else {
                (add_over(s), ActionView::Finish(Err(ErrorView::GitCommandFailed(stderr))))
            },
            _ => (add_over(s), ActionView::Finish(Err(ErrorView::GitCommandFailed(e->GitNotRun_0)))),
        },
        AddStage::Announce => (add_over(s), ActionView::Finish(Ok(()))),
        // No event fits this stage.
        AddStage::Over => (s, ActionView::Finish(Ok(()))),
    }
}

impl MultiTree {
    /// Begins `add` of the worktree for branch `name`, at `path` when one is given.
    pub fn add_worktree(&self, name: String, path: Option<String>) -> (r: AddFlow)
        ensures
            r.view() == (AddState {
                name: name@,
                path: path.deep_view(),
                resolution: self.config_view().settings().resolution,
                custom_base: self.config_view().settings().custom_base,
                base_branch: self.config_view().settings().default_base_branch,
                stage: AddStage::Begin,
                root: Seq::empty(),
                target: Seq::empty(),
            }),
    {
        let config = self.config();
        let pc = config.path_config();
        AddFlow {
            name,
            path,
            paths: PathConfig { resolution: pc.resolution, custom_base: pc.custom_base.clone() },
            base_branch: owned(config.default_base_branch()),
            stage: AddStage::Begin,
            root: String::new(),
            target: String::new(),
        }
    }
}

impl AddFlow {
    /// The kind of event that the command waits for.
    pub fn awaiting(&self) -> (r: Awaiting)
        ensures
            r == add_awaits(self.view().stage),
    {
        match self.stage {
            AddStage::Begin => Awaiting::Start,
            AddStage::Root | AddStage::Branch | AddStage::Adding => Awaiting::Git,
            AddStage::Announce => Awaiting::Shown,
            AddStage::Over => Awaiting::Nothing,
        }
    }

    /// Takes the event `e` and gives the next action; see `add_next`.
    pub fn step(&mut self, e: Event) -> (a: Action)
        requires
            super::event_fits(add_awaits(old(self).view().stage), e.view()),
        ensures
            (final(self).view(), a.view()) == add_next(old(self).view(), e.view()),
    {
        match self.stage {
            AddStage::Begin => {
                self.stage = AddStage::Root;
                ask_root()
            },
            AddStage::Root => {
                let root = match root_of(e) {
                    Ok(r) => r,
                    Err(err) => {
                        self.stage = AddStage::Over;
                        return fail(err);
                    },
                };
                match worktree_path(root.as_str(), &self.path, &self.paths, self.name.as_str()) {
                    Err(err) => {
                        self.stage = AddStage::Over;
                        fail(err)
                    },
                    Ok(target) => {
                        self.stage = AddStage::Branch;
                        let args = args4(owned("show-ref"), owned("--verify"), owned("--quiet"), branch_ref(self.name.as_str()));
                        self.root = root;
                        self.target = target;
                        Action::Git { dir: Some(self.root.clone()), args, capture: false }
                    },
                }
            },
            AddStage::Branch => match e {
                Event::GitRan { success, .. } => {
                    self.stage = AddStage::Adding;
                    let args = if success {
                        args4(owned("worktree"), owned("add"), self.target.clone(), self.name.clone())
                    } else {
                        args6(
                            owned("worktree"),
                            owned("add"),
                            owned("-b"),
                            self.name.clone(),
                            self.target.clone(),
                            self.base_branch.clone(),
                        )
                    };
                    Action::Git { dir: Some(self.root.clone()), args, capture: true }
                },
                Event::GitNotRun(m) => {
                    self.stage = AddStage::Over;
                    fail(MultiTreeError::GitCommandFailed(m))
                },
                _ => {
                    proof {
                        assert(false);
                    }
                    Action::Ask
                },
            },
            AddStage::Adding => match e {
                Event::GitRan { success, stderr, .. } => if success {
                    self.stage = AddStage::Announce;
                    Action::Show(Message::Added)
                } else {
                    self.stage = AddStage::Over;
                    fail(MultiTreeError::GitCommandFailed(stderr))
                },
                Event::GitNotRun(m) => {
                    self.stage = AddStage::Over;
                    fail(MultiTreeError::GitCommandFailed(m))
                },
                _ => {
                    proof {
                        assert(false);
                    }
                    Action::Ask
                },
            },
            AddStage::Announce => {
                self.stage = AddStage::Over;
                Action::Finish(Ok(()))
            },
            AddStage::Over => {
                proof {
                    assert(false);
                }
                Action::Ask
            },
        }
    }
}

/// Once the root is known and whether the branch exists has been asked, `add` has git create
/// the worktree at the place that the given path and the settings of the command decide
/// (`worktree_location`), in the repository root: it checks the branch out there when it
/// exists, and otherwise creates it there from the base branch of the settings.
pub proof fn law_add_uses_settings(s: AddState, root_answer: EventView, branch_answer: EventView)
    requires
        s.stage is Root,
        root_outcome(root_answer) is Ok,
        worktree_location(root_outcome(root_answer)->Ok_0, s.path, s.resolution, s.custom_base, s.name) is Some,
        branch_answer matches EventView::GitRan { .. },
    ensures
        ({
            let root = root_outcome(root_answer)->Ok_0;
            let target = worktree_location(root, s.path, s.resolution, s.custom_base, s.name)->0;
            let t = add_next(s, root_answer).0;
            let a = add_next(t, branch_answer).1;
            a == ActionView::Git {
                dir: Some(root),
                args: if branch_answer->GitRan_success {
                    seq!["worktree"@, "add"@, target, s.name]
                } else {
                    seq!["worktree"@, "add"@, "-b"@, s.name, target, s.base_branch]
                },
                capture: true,
            }
        }),
{
}

} // verus!
