//! `remove`: removes the worktree of a branch, after asking when the settings say so.

use vstd::prelude::*;

use super::{
    args3, ask_list, ask_root, entries_of, fail, list_outcome, list_query, root_of, root_outcome, root_query, Action,
    ActionView, Awaiting, Event, EventView, Message, MessageView,
};
use crate::multitree::{branch_ref, heads_ref, is_affirmative, is_yes, owned, ErrorView, MultiTree, MultiTreeError};
use crate::text::trim;
use crate::worktree::{entries_view, first_with_branch, lemma_first_with_branch, position_of_branch};

verus! {

/// The steps of `remove`.
#[derive(Clone, Copy)]
pub enum RemoveStage {
    /// Nothing has happened yet.
    Begin,
    /// The root of the repository was asked for.
    Root,
    /// The worktrees were asked for.
    Listing,
    /// The user is being told which worktree goes.
    Announce,
    /// The user was asked to confirm.
    Confirm,
    /// git was asked to remove the worktree.
    Removing,
    /// The command is over.
    Over,
}

/// `remove` under way.
pub struct RemoveFlow {
    name: String,
    confirm: bool,
    stage: RemoveStage,
    root: String,
    path: String,
}

/// `RemoveFlow` as plain values.
pub struct RemoveState {
    pub name: Seq<char>,
    pub confirm: bool,
    pub stage: RemoveStage,
    pub root: Seq<char>,
    pub path: Seq<char>,
}

impl RemoveFlow {
    pub closed spec fn view(&self) -> RemoveState {
        RemoveState { name: self.name@, confirm: self.confirm, stage: self.stage, root: self.root@, path: self.path@ }
    }
}

/// The kind of event that `remove` waits for at `stage`.
pub open spec fn remove_awaits(stage: RemoveStage) -> Awaiting {
    match stage {
        RemoveStage::Begin => Awaiting::Start,
        RemoveStage::Root | RemoveStage::Listing | RemoveStage::Removing => Awaiting::Git,
        RemoveStage::Announce => Awaiting::Shown,
        RemoveStage::Confirm => Awaiting::Answer,
        RemoveStage::Over => Awaiting::Nothing,
    }
}

/// `git worktree remove <path>` in `root`, its output going to the terminal.
pub open spec fn remove_query(root: Seq<char>, path: Seq<char>) -> ActionView {
    ActionView::Git { dir: Some(root), args: seq!["worktree"@, "remove"@, path], capture: false }
}

/// `s` at the end of the command.
pub open spec fn remove_over(s: RemoveState) -> RemoveState {
    RemoveState { stage: RemoveStage::Over, ..s }
}

/// One step of `remove`: the state after the event `e` and the action to take.
/// The root is asked for, then the worktrees; the worktree of the branch is looked up and
/// named to the user; when the settings ask for it, the user must confirm; then git removes
/// the worktree. Declining ends the command without error.
pub open spec fn remove_next(s: RemoveState, e: EventView) -> (RemoveState, ActionView) {
    match s.stage {
        RemoveStage::Begin => (RemoveState { stage: RemoveStage::Root, ..s }, root_query()),
        RemoveStage::Root => match root_outcome(e) {
            Err(err) => (remove_over(s), ActionView::Finish(Err(err))),
            Ok(root) => (RemoveState { stage: RemoveStage::Listing, root, ..s }, list_query(root)),
        },
        RemoveStage::Listing => match list_outcome(e) {
            Err(err) => (remove_over(s), ActionView::Finish(Err(err))),
            Ok(entries) => match first_with_branch(entries, heads_ref(s.name)) {
                None => (remove_over(s), ActionView::Finish(Err(ErrorView::WorktreeNotFound(s.name)))),
                Some(i) => (
                    RemoveState { stage: RemoveStage::Announce, path: entries[i].0, ..s },
                    ActionView::Show(MessageView::Removing { name: s.name, path: entries[i].0 }),
                ),
            },
        },
        RemoveStage::Announce => if s.confirm {
            (RemoveState { stage: RemoveStage::Confirm, ..s }, ActionView::Ask)
        } else {
            (RemoveState { stage: RemoveStage::Removing, ..s }, remove_query(s.root, s.path))
        },
        RemoveStage::Confirm => match e {
            EventView::Answer(line) => if is_yes(trim(line)) {
                (RemoveState { stage: RemoveStage::Removing, ..s }, remove_query(s.root, s.path))
            } else {
                (remove_over(s), ActionView::Finish(Ok(())))
            },
            _ => (remove_over(s), ActionView::Finish(Err(ErrorView::ReadUserInput(e->AnswerNotRead_0)))),
        },
        RemoveStage::Removing => match e {
            EventView::GitRan { success, status, .. } => if success {
                (remove_over(s), ActionView::Finish(Ok(())))
            } else {
                (
                    remove_over(s),
                    ActionView::Finish(Err(ErrorView::GitCommandFailed("git worktree remove failed with status: "@ + status))),
                )
            },
            _ => (remove_over(s), ActionView::Finish(Err(ErrorView::GitCommandFailed(e->GitNotRun_0)))),
        },
        // No event fits this stage.
        RemoveStage::Over => (s, ActionView::Finish(Ok(()))),
    }
}

/// An error that names the failed exit `status` of `what`.
pub fn failed_with_status(what: &str, status: String) -> (r: MultiTreeError)
    ensures
        r.view() == ErrorView::GitCommandFailed(what@ + status@),
{
    let mut m = owned(what);
    m.append(status.as_str());
    MultiTreeError::GitCommandFailed(m)
}

impl MultiTree {
    /// Begins `remove` of the worktree of branch `name`.
    pub fn remove_worktree(&self, name: String) -> (r: RemoveFlow)
        ensures
            r.view() == (RemoveState {
                name: name@,
                confirm: self.config_view().settings().confirm_before_remove,
                stage: RemoveStage::Begin,
                root: Seq::empty(),
                path: Seq::empty(),
            }),
    {
        let confirm = self.config().ui_config().confirm_before_remove;
        RemoveFlow { name, confirm, stage: RemoveStage::Begin, root: String::new(), path: String::new() }
    }
}

impl RemoveFlow {
    /// The kind of event that the command waits for.
    pub fn awaiting(&self) -> (r: Awaiting)
        ensures
            r == remove_awaits(self.view().stage),
    {
        match self.stage {
            RemoveStage::Begin => Awaiting::Start,
            RemoveStage::Root | RemoveStage::Listing | RemoveStage::Removing => Awaiting::Git,
            RemoveStage::Announce => Awaiting::Shown,
            RemoveStage::Confirm => Awaiting::Answer,
            RemoveStage::Over => Awaiting::Nothing,
        }
    }

    fn removal(&self) -> (a: Action)
        ensures
            a.view() == remove_query(self.root@, self.path@),
    {
        Action::Git {
            dir: Some(self.root.clone()),
            args: args3(owned("worktree"), owned("remove"), self.path.clone()),
            capture: false,
        }
    }

    /// Takes the event `e` and gives the next action; see `remove_next`.
    pub fn step(&mut self, e: Event) -> (a: Action)
        requires
            super::event_fits(remove_awaits(old(self).view().stage), e.view()),
        ensures
            (final(self).view(), a.view()) == remove_next(old(self).view(), e.view()),
    {
        match self.stage {
            RemoveStage::Begin => {
                self.stage = RemoveStage::Root;
                ask_root()
            },
            RemoveStage::Root => match root_of(e) {
                Ok(root) => {
                    self.stage = RemoveStage::Listing;
                    self.root = root;
                    ask_list(&self.root)
                },
                Err(err) => {
                    self.stage = RemoveStage::Over;
                    fail(err)
                },
            },
            RemoveStage::Listing => match entries_of(e) {
                Err(err) => {
                    self.stage = RemoveStage::Over;
                    fail(err)
                },
                Ok(entries) => {
                    let target = branch_ref(self.name.as_str());
                    proof {
                        lemma_first_with_branch(entries_view(entries@), target@);
                    }
                    match position_of_branch(&entries, &target) {
                        None => {
                            self.stage = RemoveStage::Over;
                            fail(MultiTreeError::WorktreeNotFound(self.name.clone()))
                        },
                        Some(i) => {
                            self.stage = RemoveStage::Announce;
                            assert(entries_view(entries@)[i as int] == entries@[i as int].view());
                            self.path = entries[i].path.clone();
                            Action::Show(Message::Removing { name: self.name.clone(), path: self.path.clone() })
                        },
                    }
                },
            },
            RemoveStage::Announce => if self.confirm {
                self.stage = RemoveStage::Confirm;
                Action::Ask
            } else {
                self.stage = RemoveStage::Removing;
                self.removal()
            },
            RemoveStage::Confirm => match e {
                Event::Answer(line) => if is_affirmative(line.as_str()) {
                    self.stage = RemoveStage::Removing;
                    self.removal()
                } else {
                    self.stage = RemoveStage::Over;
                    Action::Finish(Ok(()))
                },
                Event::AnswerNotRead(m) => {
                    self.stage = RemoveStage::Over;
                    fail(MultiTreeError::ReadUserInput(m))
                },
                _ => {
                    proof {
                        assert(false);
                    }
                    Action::Ask
                },
            },
            RemoveStage::Removing => match e {
                Event::GitRan { success, status, .. } => {
                    self.stage = RemoveStage::Over;
                    if success {
                        Action::Finish(Ok(()))
                    } else {
                        fail(failed_with_status("git worktree remove failed with status: ", status))
                    }
                },
                Event::GitNotRun(m) => {
                    self.stage = RemoveStage::Over;
                    fail(MultiTreeError::GitCommandFailed(m))
                },
                _ => {
                    proof {
                        assert(false);
                    }
                    Action::Ask
                },
            },
            RemoveStage::Over => {
                proof {
                    assert(false);
                }
                Action::Ask
            },
        }
    }
}

/// `remove` has git remove the worktree it named to the user, and only with consent: the
/// user confirmed, or the settings do not ask.
pub proof fn law_remove_needs_consent(s: RemoveState, e: EventView)
    requires
        super::event_fits(remove_awaits(s.stage), e),
    ensures
        ({
            let a = remove_next(s, e).1;
            (a matches ActionView::Git { args, .. } && args.len() == 3 && args[1] == "remove"@) ==> {
                &&& a == remove_query(s.root, s.path)
                &&& (s.stage is Announce && !s.confirm) || (s.stage is Confirm && (e matches EventView::Answer(
                    line,
                ) && is_yes(trim(line))))
            }
        }),
{
    reveal_strlit("remove");
    reveal_strlit("list");
    reveal_strlit("--show-toplevel");
    assert("remove"@.len() == 6 && "list"@.len() == 4);
}

/// At the question, consent is enough: an answer whose trimmed text is `y`, `Y`, `yes`, `YES` or
/// `Yes` has git remove the announced worktree, in the repository root, and any other answer
/// ends the command successfully without removing anything. Without the question, the
/// removal follows the announcement at once.
pub proof fn law_remove_consent_removes(s: RemoveState, e: EventView)
    ensures
        ({
            let a = remove_next(s, e).1;
            let removal = ActionView::Git { dir: Some(s.root), args: seq!["worktree"@, "remove"@, s.path], capture: false };
            &&& s.stage is Confirm && (e matches EventView::Answer(line)) ==> {
                let answer = trim(e->Answer_0);
                if answer == "y"@ || answer == "Y"@ || answer == "yes"@ || answer == "YES"@ || answer == "Yes"@ {
                    a == removal
                } else {
                    a == ActionView::Finish(Ok(()))
                }
            }
            &&& s.stage is Announce && !s.confirm ==> a == removal
            &&& s.stage is Announce && s.confirm ==> a == ActionView::Ask
        }),
{
}

} // verus!
