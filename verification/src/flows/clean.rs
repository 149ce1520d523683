//! `clean`: removes the worktrees of local branches that are gone from the remote and, when
//! the settings ask for it, merged into the base branch.

use vstd::prelude::*;

use super::{
    args2, args3, args4, ask_list, ask_root, entries_of, fail, list_outcome, list_query, root_of, root_outcome,
    root_query, Action, ActionView, Awaiting, Event, EventView, Message, MessageView,
};
use crate::flows::remove::failed_with_status;
use crate::multitree::{is_affirmative, is_yes, local_branch, local_branch_of, owned, ErrorView, MultiTree, MultiTreeError};
use crate::text::trim;
use crate::worktree::{entries_view, EntryView, WorktreeEntry};

verus! {

/// The steps of `clean`.
#[derive(Clone, Copy)]
pub enum CleanStage {
    /// Nothing has happened yet.
    Begin,
    /// The root of the repository was asked for.
    Root,
    /// git was asked to fetch and prune.
    Fetching,
    /// The worktrees were asked for.
    Listing,
    /// Whether the remote still has the branch under check was asked.
    CheckingRemote,
    /// Whether the branch under check is merged into the base branch was asked.
    CheckingMerged,
    /// The user is being told that there is nothing to clean.
    Nothing,
    /// The user is being shown what is about to go.
    Showing,
    /// The user was asked to confirm.
    Confirm,
    /// git was asked to remove a worktree.
    Removing,
    /// The user is being told that a removal failed.
    RemoveWarn,
    /// git was asked to delete a local branch.
    Deleting,
    /// The user is being told that a deletion failed.
    DeleteWarn,
    /// The command is over.
    Over,
}

/// `clean` under way.
pub struct CleanFlow {
    force: bool,
    auto_fetch: bool,
    require_merged: bool,
    delete_local_branch: bool,
    base: String,
    stage: CleanStage,
    root: String,
    entries: Vec<WorktreeEntry>,
    next: usize,
    branch: String,
    candidates: Vec<(String, String)>,
    approved: Ghost<bool>,
}

/// `CleanFlow` as plain values. `next` is the worktree under check while candidates are
/// chosen, and the candidate being removed afterwards; `candidates` pairs a branch with the
/// path of its worktree; `approved` says whether removal was allowed, by `--force` or by the
/// user.
pub struct CleanState {
    pub force: bool,
    pub auto_fetch: bool,
    pub require_merged: bool,
    pub delete_local_branch: bool,
    pub base: Seq<char>,
    pub stage: CleanStage,
    pub root: Seq<char>,
    pub entries: Seq<EntryView>,
    pub next: int,
    pub branch: Seq<char>,
    pub candidates: Seq<(Seq<char>, Seq<char>)>,
    pub approved: bool,
}

impl CleanFlow {
    pub closed spec fn view(&self) -> CleanState {
        CleanState {
            force: self.force,
            auto_fetch: self.auto_fetch,
            require_merged: self.require_merged,
            delete_local_branch: self.delete_local_branch,
            base: self.base@,
            stage: self.stage,
            root: self.root@,
            entries: entries_view(self.entries@),
            next: self.next as int,
            branch: self.branch@,
            candidates: self.candidates.deep_view(),
            approved: self.approved@,
        }
    }
}

/// The kind of event that `clean` waits for at `stage`.
pub open spec fn clean_awaits(stage: CleanStage) -> Awaiting {
    match stage {
        CleanStage::Begin => Awaiting::Start,
        CleanStage::Root | CleanStage::Fetching | CleanStage::Listing | CleanStage::CheckingRemote
        | CleanStage::CheckingMerged | CleanStage::Removing | CleanStage::Deleting => Awaiting::Git,
        CleanStage::Nothing | CleanStage::Showing | CleanStage::RemoveWarn | CleanStage::DeleteWarn => Awaiting::Shown,
        CleanStage::Confirm => Awaiting::Answer,
        CleanStage::Over => Awaiting::Nothing,
    }
}

/// The branch of `e` that `clean` may remove: a local branch other than `base`.
pub open spec fn eligible_branch(e: EntryView, base: Seq<char>) -> Option<Seq<char>> {
    match e.1 {
        Some(r) => match local_branch(r) {
            Some(b) => if b != base { Some(b) } else { None },
            None => None,
        },
        None => None,
    }
}

/// The first worktree at or after `from` whose branch `clean` may remove.
pub open spec fn next_eligible(entries: Seq<EntryView>, from: int, base: Seq<char>) -> Option<int>
    decreases entries.len() - from,
{
    if from < 0 || from >= entries.len() {
        None
    } else if eligible_branch(entries[from], base) is Some {
        Some(from)
    } else {
        next_eligible(entries, from + 1, base)
    }
}

/// The ref of `branch` on the remote `origin`.
pub open spec fn remote_ref(branch: Seq<char>) -> Seq<char> {
    "refs/remotes/origin/"@ + branch
}

/// A git command run in `root` whose output goes to the terminal.
pub open spec fn git_in(root: Seq<char>, args: Seq<Seq<char>>) -> ActionView {
    ActionView::Git { dir: Some(root), args, capture: false }
}

/// Goes on with the choice of candidates from the worktree `from`: the next worktree whose
/// branch may go has its remote branch checked; when none is left, the candidates are shown,
/// or the user is told that there is nothing to clean.
pub open spec fn clean_advance(s: CleanState, from: int) -> (CleanState, ActionView) {
    match next_eligible(s.entries, from, s.base) {
        Some(i) => {
            let b = eligible_branch(s.entries[i], s.base)->0;
            (
                CleanState { stage: CleanStage::CheckingRemote, next: i, branch: b, ..s },
                git_in(s.root, seq!["show-ref"@, "--verify"@, "--quiet"@, remote_ref(b)]),
            )
        },
        None => if s.candidates.len() == 0 {
            (CleanState { stage: CleanStage::Nothing, ..s }, ActionView::Show(MessageView::NothingToClean))
        } else {
            (CleanState { stage: CleanStage::Showing, ..s }, ActionView::Show(MessageView::Candidates(s.candidates)))
        },
    }
}

/// Goes on with the removal of candidate `j`: git removes its worktree; after the last one,
/// the command is over.
pub open spec fn clean_remove(s: CleanState, j: int) -> (CleanState, ActionView) {
    if j < s.candidates.len() {
        (
            CleanState { stage: CleanStage::Removing, next: j, ..s },
            git_in(s.root, seq!["worktree"@, "remove"@, s.candidates[j].1]),
        )
    } else {
        (CleanState { stage: CleanStage::Over, ..s }, ActionView::Finish(Ok(())))
    }
}

/// The flag that makes `git branch` delete a branch: `-D`, which deletes it even when
/// unmerged, under `--force`, and `-d` otherwise.
pub open spec fn delete_flag(force: bool) -> Seq<char> {
    if force { "-D"@ } else { "-d"@ }
}

/// `s` ending with the error `err`.
pub open spec fn clean_fail(s: CleanState, err: ErrorView) -> (CleanState, ActionView) {
    (CleanState { stage: CleanStage::Over, ..s }, ActionView::Finish(Err(err)))
}

/// One step of `clean`: the state after the event `e` and the action to take.
/// The root is asked for; when the settings say so, git fetches and prunes; then the
/// worktrees are listed and checked in order. A worktree becomes a candidate when its branch
/// is a local branch other than the base branch, the remote `origin` no longer has it, and,
/// when merges are required, it is merged into the base branch. The candidates are shown;
/// unless `--force` was given the user must confirm; then each candidate's worktree is removed
/// and, when the settings say so, its local branch deleted. A failed removal or deletion is
/// reported and the rest go on; a git command that cannot run ends the command.
pub open spec fn clean_next(s: CleanState, e: EventView) -> (CleanState, ActionView) {
    match s.stage {
        CleanStage::Begin => (CleanState { stage: CleanStage::Root, ..s }, root_query()),
        CleanStage::Root => match root_outcome(e) {
            Err(err) => clean_fail(s, err),
            Ok(root) => if s.auto_fetch {
                (CleanState { stage: CleanStage::Fetching, root, ..s }, git_in(root, seq!["fetch"@, "--prune"@]))
            } else {
                (CleanState { stage: CleanStage::Listing, root, ..s }, list_query(root))
            },
        },
        CleanStage::Fetching => match e {
            EventView::GitRan { success, status, .. } => if success {
                (CleanState { stage: CleanStage::Listing, ..s }, list_query(s.root))
            } else {
                clean_fail(s, ErrorView::GitCommandFailed("git fetch --prune failed with status: "@ + status))
            },
            _ => clean_fail(s, ErrorView::GitCommandFailed(e->GitNotRun_0)),
        },
        CleanStage::Listing => match list_outcome(e) {
            Err(err) => clean_fail(s, err),
            Ok(entries) => clean_advance(CleanState { entries, candidates: Seq::empty(), ..s }, 0),
        },
        CleanStage::CheckingRemote => match e {
            EventView::GitRan { success, .. } => if success {
                clean_advance(s, s.next + 1)
            } else if s.require_merged {
                (
                    CleanState { stage: CleanStage::CheckingMerged, ..s },
                    git_in(s.root, seq!["merge-base"@, "--is-ancestor"@, s.branch, s.base]),
                )
            } else {
                clean_advance(
                    CleanState { candidates: s.candidates.push((s.branch, s.entries[s.next].0)), ..s },
                    s.next + 1,
                )
            },
            _ => clean_fail(s, ErrorView::GitCommandFailed(e->GitNotRun_0)),
        },
        CleanStage::CheckingMerged => match e {
            EventView::GitRan { success, .. } => if success {
                clean_advance(
                    CleanState { candidates: s.candidates.push((s.branch, s.entries[s.next].0)), ..s },
                    s.next + 1,
                )
            } else {
                clean_advance(s, s.next + 1)
            },
            _ => clean_fail(s, ErrorView::GitCommandFailed(e->GitNotRun_0)),
        },
        CleanStage::Nothing => (CleanState { stage: CleanStage::Over, ..s }, ActionView::Finish(Ok(()))),
        CleanStage::Showing => if s.force {
            clean_remove(CleanState { approved: true, ..s }, 0)
        } else {
            (CleanState { stage: CleanStage::Confirm, ..s }, ActionView::Ask)
        },
        CleanStage::Confirm => match e {
            EventView::Answer(line) => if is_yes(trim(line)) {
                clean_remove(CleanState { approved: true, ..s }, 0)
            } else {
                (CleanState { stage: CleanStage::Over, ..s }, ActionView::Finish(Ok(())))
            },
            _ => clean_fail(s, ErrorView::ReadUserInput(e->AnswerNotRead_0)),
        },
        CleanStage::Removing => match e {
            EventView::GitRan { success, .. } => if !success {
                (
                    CleanState { stage: CleanStage::RemoveWarn, ..s },
                    ActionView::Show(MessageView::RemoveFailed(s.candidates[s.next].1)),
                )
            } else if s.delete_local_branch {
                (
                    CleanState { stage: CleanStage::Deleting, ..s },
                    git_in(s.root, seq!["branch"@, delete_flag(s.force), s.candidates[s.next].0]),
                )
            } else {
                clean_remove(s, s.next + 1)
            },
            _ => clean_fail(s, ErrorView::GitCommandFailed(e->GitNotRun_0)),
        },
        CleanStage::RemoveWarn => clean_remove(s, s.next + 1),
        CleanStage::Deleting => match e {
            EventView::GitRan { success, .. } => if success {
                clean_remove(s, s.next + 1)
            } else {
                (
                    CleanState { stage: CleanStage::DeleteWarn, ..s },
                    ActionView::Show(MessageView::DeleteFailed(s.candidates[s.next].0)),
                )
            },
            _ => clean_fail(s, ErrorView::GitCommandFailed(e->GitNotRun_0)),
        },
        CleanStage::DeleteWarn => clean_remove(s, s.next + 1),
        // No event fits this stage.
        CleanStage::Over => (s, ActionView::Finish(Ok(()))),
    }
}

/// What holds of `clean` in every state it reaches: the worktree under check has a branch
/// that may go; the candidate being removed exists; every candidate pairs a local branch other
/// than the base branch with the path of a worktree that has it checked out; and removal has
/// been allowed once it has begun.
pub open spec fn clean_wf(s: CleanState) -> bool {
    &&& 0 <= s.next
    &&& (s.stage is CheckingRemote || s.stage is CheckingMerged) ==> {
        &&& s.next < s.entries.len()
        &&& eligible_branch(s.entries[s.next], s.base) == Some(s.branch)
    }
    &&& (s.stage is Showing || s.stage is Confirm) ==> s.candidates.len() > 0
    &&& (s.stage is Removing || s.stage is RemoveWarn || s.stage is Deleting || s.stage is DeleteWarn) ==> {
        &&& s.next < s.candidates.len()
        &&& s.approved
    }
    &&& all_from_worktrees(s.entries, s.base, s.candidates)
}

/// `cand` pairs a branch that `clean` may remove with the path of a worktree in `entries`
/// that has it checked out.
pub open spec fn from_worktree(entries: Seq<EntryView>, base: Seq<char>, cand: (Seq<char>, Seq<char>)) -> bool {
    exists|k: int|
        0 <= k < entries.len() && entries[k].0 == cand.1 && eligible_branch(#[trigger] entries[k], base) == Some(cand.0)
}

/// Every one of `cands` is `from_worktree`.
pub open spec fn all_from_worktrees(entries: Seq<EntryView>, base: Seq<char>, cands: Seq<(Seq<char>, Seq<char>)>) -> bool {
    forall|c: int| 0 <= c < cands.len() ==> from_worktree(entries, base, #[trigger] cands[c])
}

/// The branch of `e` that `clean` may remove, if any; see `eligible_branch`.
pub fn eligible_of(e: &WorktreeEntry, base: &String) -> (r: Option<String>)
    ensures
        r.deep_view() == eligible_branch(e.view(), base@),
{
    match &e.branch {
        Some(r) => match local_branch_of(r) {
            Some(b) => if b == *base { None } else { Some(b) },
            None => None,
        },
        None => None,
    }
}

proof fn lemma_next_eligible_skip(entries: Seq<EntryView>, from: int, i: int, base: Seq<char>)
    requires
        0 <= from <= i <= entries.len(),
        forall|k: int| from <= k < i ==> eligible_branch(#[trigger] entries[k], base) is None,
    ensures
        next_eligible(entries, from, base) == next_eligible(entries, i, base),
    decreases i - from,
{
    if from < i {
        lemma_next_eligible_skip(entries, from + 1, i, base);
    }
}

/// A copy of the pairs `v`.
fn copy_pairs(v: &Vec<(String, String)>) -> (r: Vec<(String, String)>)
    ensures
        r.deep_view() == v.deep_view(),
{
    let mut r: Vec<(String, String)> = Vec::new();
    let mut i: usize = 0;
    while i < v.len()
        invariant
            i <= v@.len(),
            r@.len() == i,
            forall|k: int| 0 <= k < i ==> #[trigger] r.deep_view()[k] == v.deep_view()[k],
        decreases v@.len() - i,
    {
        let ghost old_r = r@;
        let ghost old_dv = r.deep_view();
        r.push((v[i].0.clone(), v[i].1.clone()));
        assert forall|k: int| 0 <= k < i + 1 implies #[trigger] r.deep_view()[k] == v.deep_view()[k] by {
            if k < i {
                assert(r@[k] == old_r[k]);
                assert(old_dv[k] == v.deep_view()[k]);
                assert(old_dv[k] == old_r[k].deep_view());
            } else {
                assert(r@[k] == v@[k]);
            }
            assert(r.deep_view()[k] == r@[k].deep_view());
            assert(v.deep_view()[k] == v@[k].deep_view());
        }
        i = i + 1;
    }
    assert(r.deep_view() =~= v.deep_view());
    r
}

impl MultiTree {
    /// Begins `clean`; `force` removes without asking and deletes branches even when unmerged.
    pub fn clean_worktrees(&self, force: bool) -> (r: CleanFlow)
        ensures
            r.view() == (CleanState {
                force,
                auto_fetch: self.config_view().settings().auto_fetch,
                require_merged: self.config_view().settings().require_merged,
                delete_local_branch: self.config_view().settings().delete_local_branch,
                base: self.config_view().settings().default_base_branch,
                stage: CleanStage::Begin,
                root: Seq::empty(),
                entries: Seq::empty(),
                next: 0,
                branch: Seq::empty(),
                candidates: Seq::empty(),
                approved: false,
            }),
            r.wf(),
    {
        let config = self.config();
        let clean = config.clean_config();
        let r = CleanFlow {
            force,
            auto_fetch: clean.auto_fetch,
            require_merged: clean.require_merged,
            delete_local_branch: clean.delete_local_branch,
            base: owned(config.default_base_branch()),
            stage: CleanStage::Begin,
            root: String::new(),
            entries: Vec::new(),
            next: 0,
            branch: String::new(),
            candidates: Vec::new(),
            approved: Ghost(false),
        };
        assert(entries_view(r.entries@) =~= Seq::<EntryView>::empty());
        assert(r.candidates.deep_view() =~= Seq::<(Seq<char>, Seq<char>)>::empty());
        r
    }
}

impl CleanFlow {
    /// The kind of event that the command waits for.
    pub fn awaiting(&self) -> (r: Awaiting)
        ensures
            r == clean_awaits(self.view().stage),
    {
        match self.stage {
            CleanStage::Begin => Awaiting::Start,
            CleanStage::Root | CleanStage::Fetching | CleanStage::Listing | CleanStage::CheckingRemote
            | CleanStage::CheckingMerged | CleanStage::Removing | CleanStage::Deleting => Awaiting::Git,
            CleanStage::Nothing | CleanStage::Showing | CleanStage::RemoveWarn | CleanStage::DeleteWarn => Awaiting::Shown,
            CleanStage::Confirm => Awaiting::Answer,
            CleanStage::Over => Awaiting::Nothing,
        }
    }

    /// What holds in every state the command reaches; see `clean_wf`.
    pub closed spec fn wf(&self) -> bool {
        clean_wf(self.view())
    }

    fn advance(&mut self, from: usize) -> (a: Action)
        requires
            from <= old(self).entries@.len(),
        ensures
            (final(self).view(), a.view()) == clean_advance(old(self).view(), from as int),
    {
        let ghost ev = entries_view(self.entries@);
        let mut i = from;
        while i < self.entries.len()
            invariant
                *self == *old(self),
                ev == entries_view(self.entries@),
                from <= i <= self.entries@.len(),
                forall|k: int| from <= k < i ==> eligible_branch(#[trigger] ev[k], self.base@) is None,
            decreases self.entries@.len() - i,
        {
            assert(ev[i as int] == self.entries@[i as int].view());
            match eligible_of(&self.entries[i], &self.base) {
                Some(b) => {
                    proof {
                        lemma_next_eligible_skip(ev, from as int, i as int, self.base@);
                    }
                    let mut rr = owned("refs/remotes/origin/");
                    rr.append(b.as_str());
                    self.stage = CleanStage::CheckingRemote;
                    self.next = i;
                    self.branch = b;
                    return Action::Git {
                        dir: Some(self.root.clone()),
                        args: args4(owned("show-ref"), owned("--verify"), owned("--quiet"), rr),
                        capture: false,
                    };
                },
                None => {},
            }
            i = i + 1;
        }
        proof {
            lemma_next_eligible_skip(ev, from as int, i as int, self.base@);
        }
        if self.candidates.len() == 0 {
            self.stage = CleanStage::Nothing;
            Action::Show(Message::NothingToClean)
        } else {
            self.stage = CleanStage::Showing;
            Action::Show(Message::Candidates(copy_pairs(&self.candidates)))
        }
    }

    fn remove_from(&mut self, j: usize) -> (a: Action)
        ensures
            (final(self).view(), a.view()) == clean_remove(old(self).view(), j as int),
    {
        if j < self.candidates.len() {
            self.stage = CleanStage::Removing;
            self.next = j;
            Action::Git {
                dir: Some(self.root.clone()),
                args: args3(owned("worktree"), owned("remove"), self.candidates[j].1.clone()),
                capture: false,
            }
        } else {
            self.stage = CleanStage::Over;
            Action::Finish(Ok(()))
        }
    }

    fn end_with(&mut self, err: MultiTreeError) -> (a: Action)
        ensures
            (final(self).view(), a.view()) == clean_fail(old(self).view(), err.view()),
    {
        self.stage = CleanStage::Over;
        fail(err)
    }

    /// Takes the event `e` and gives the next action; see `clean_next`. What `clean_wf`
    /// says holds before and after.
    pub fn step(&mut self, e: Event) -> (a: Action)
        requires
            super::event_fits(clean_awaits(old(self).view().stage), e.view()),
            old(self).wf(),
        ensures
            (final(self).view(), a.view()) == clean_next(old(self).view(), e.view()),
            final(self).wf(),
    {
        proof {
            lemma_clean_keeps_wf(self.view(), e.view());
        }
        match self.stage {
            CleanStage::Begin => {
                self.stage = CleanStage::Root;
                ask_root()
            },
            CleanStage::Root => self.on_root(e),
            CleanStage::Fetching => self.on_fetch(e),
            CleanStage::Listing => self.on_list(e),
            CleanStage::CheckingRemote | CleanStage::CheckingMerged => self.on_check(e),
            CleanStage::Nothing => {
                self.stage = CleanStage::Over;
                Action::Finish(Ok(()))
            },
            CleanStage::Showing => if self.force {
                self.approved = Ghost(true);
                self.remove_from(0)
            } else {
                self.stage = CleanStage::Confirm;
                Action::Ask
            },
            CleanStage::Confirm => self.on_answer(e),
            CleanStage::Removing | CleanStage::Deleting => self.on_removal(e),
            CleanStage::RemoveWarn | CleanStage::DeleteWarn => {
                let count: usize = self.candidates.len();
                assert(self.next < count);
                self.remove_from(self.next + 1)
            },
            CleanStage::Over => {
                proof {
                    assert(false);
                }
                Action::Ask
            },
        }
    }

    fn on_root(&mut self, e: Event) -> (a: Action)
        requires
            old(self).view().stage is Root,
        ensures
            (final(self).view(), a.view()) == clean_next(old(self).view(), e.view()),
    {
        match root_of(e) {
            Ok(root) => {
                self.root = root;
                if self.auto_fetch {
                    self.stage = CleanStage::Fetching;
                    Action::Git {
                        dir: Some(self.root.clone()),
                        args: args2(owned("fetch"), owned("--prune")),
                        capture: false,
                    }
                } else {
                    self.stage = CleanStage::Listing;
                    ask_list(&self.root)
                }
            },
            Err(err) => self.end_with(err),
        }
    }

    fn on_fetch(&mut self, e: Event) -> (a: Action)
        requires
            old(self).view().stage is Fetching,
            super::event_fits(Awaiting::Git, e.view()),
        ensures
            (final(self).view(), a.view()) == clean_next(old(self).view(), e.view()),
    {
        match e {
            Event::GitRan { success, status, .. } => if success {
                self.stage = CleanStage::Listing;
                ask_list(&self.root)
            } else {
                self.end_with(failed_with_status("git fetch --prune failed with status: ", status))
            },
            Event::GitNotRun(m) => self.end_with(MultiTreeError::GitCommandFailed(m)),
            _ => {
                proof {
                    assert(false);
                }
                Action::Ask
            },
        }
    }

    fn on_list(&mut self, e: Event) -> (a: Action)
        requires
            old(self).view().stage is Listing,
        ensures
            (final(self).view(), a.view()) == clean_next(old(self).view(), e.view()),
    {
        match entries_of(e) {
            Err(err) => self.end_with(err),
            Ok(entries) => {
                self.entries = entries;
                self.candidates = Vec::new();
                assert(self.candidates.deep_view() =~= Seq::<(Seq<char>, Seq<char>)>::empty());
                self.advance(0)
            },
        }
    }

    fn on_check(&mut self, e: Event) -> (a: Action)
        requires
            old(self).view().stage is CheckingRemote || old(self).view().stage is CheckingMerged,
            super::event_fits(Awaiting::Git, e.view()),
            old(self).wf(),
        ensures
            (final(self).view(), a.view()) == clean_next(old(self).view(), e.view()),
    {
        let count: usize = self.entries.len();
        assert(entries_view(self.entries@).len() == count);
        assert(self.next < count);
        match e {
            Event::GitRan { success, .. } => match self.stage {
                CleanStage::CheckingRemote => if success {
                    self.advance(self.next + 1)
                } else if self.require_merged {
                    self.stage = CleanStage::CheckingMerged;
                    Action::Git {
                        dir: Some(self.root.clone()),
                        args: args4(owned("merge-base"), owned("--is-ancestor"), self.branch.clone(), self.base.clone()),
                        capture: false,
                    }
                } else {
                    self.add_candidate();
                    self.advance(self.next + 1)
                },
                _ => {
                    if success {
                        self.add_candidate();
                    }
                    self.advance(self.next + 1)
                },
            },
            Event::GitNotRun(m) => self.end_with(MultiTreeError::GitCommandFailed(m)),
            _ => {
                proof {
                    assert(false);
                }
                Action::Ask
            },
        }
    }

    fn on_answer(&mut self, e: Event) -> (a: Action)
        requires
            old(self).view().stage is Confirm,
            super::event_fits(Awaiting::Answer, e.view()),
        ensures
            (final(self).view(), a.view()) == clean_next(old(self).view(), e.view()),
    {
        match e {
            Event::Answer(line) => if is_affirmative(line.as_str()) {
                self.approved = Ghost(true);
                self.remove_from(0)
            } else {
                self.stage = CleanStage::Over;
                Action::Finish(Ok(()))
            },
            Event::AnswerNotRead(m) => self.end_with(MultiTreeError::ReadUserInput(m)),
            _ => {
                proof {
                    assert(false);
                }
                Action::Ask
            },
        }
    }

    fn on_removal(&mut self, e: Event) -> (a: Action)
        requires
            old(self).view().stage is Removing || old(self).view().stage is Deleting,
            super::event_fits(Awaiting::Git, e.view()),
            old(self).wf(),
        ensures
            (final(self).view(), a.view()) == clean_next(old(self).view(), e.view()),
    {
        let count: usize = self.candidates.len();
        assert(self.next < count);
        match e {
            Event::GitRan { success, .. } => match self.stage {
                CleanStage::Removing => if !success {
                    self.stage = CleanStage::RemoveWarn;
                    Action::Show(Message::RemoveFailed(self.candidates[self.next].1.clone()))
                } else if self.delete_local_branch {
                    self.stage = CleanStage::Deleting;
                    let flag = if self.force { owned("-D") } else { owned("-d") };
                    Action::Git {
                        dir: Some(self.root.clone()),
                        args: args3(owned("branch"), flag, self.candidates[self.next].0.clone()),
                        capture: false,
                    }
                } else {
                    self.remove_from(self.next + 1)
                },
                _ => if success {
                    self.remove_from(self.next + 1)
                } else {
                    self.stage = CleanStage::DeleteWarn;
                    Action::Show(Message::DeleteFailed(self.candidates[self.next].0.clone()))
                },
            },
            Event::GitNotRun(m) => self.end_with(MultiTreeError::GitCommandFailed(m)),
            _ => {
                proof {
                    assert(false);
                }
                Action::Ask
            },
        }
    }

    fn add_candidate(&mut self)
        requires
            old(self).next < old(self).entries@.len(),
        ensures
            final(self).view() == (CleanState {
                candidates: old(self).view().candidates.push(
                    (old(self).view().branch, old(self).view().entries[old(self).next as int].0),
                ),
                ..old(self).view()
            }),
    {
        let ghost old_dv = self.candidates.deep_view();
        let ghost old_c = self.candidates@;
        assert(entries_view(self.entries@)[self.next as int] == self.entries@[self.next as int].view());
        let pair = (self.branch.clone(), self.entries[self.next].path.clone());
        self.candidates.push(pair);
        assert forall|k: int| 0 <= k < old_c.len() implies #[trigger] self.candidates.deep_view()[k] == old_dv[k] by {
            assert(self.candidates@[k] == old_c[k]);
        }
        assert(self.candidates.deep_view() =~= old_dv.push((self.branch@, entries_view(self.entries@)[self.next as int].0)));
    }
}

} // verus!

verus! {

/// Every step of `clean` keeps what `clean_wf` says: in particular, every worktree it removes
/// has a local branch other than the base branch checked out, and none is removed before
/// `--force` or the user allowed it.
pub proof fn lemma_clean_keeps_wf(s: CleanState, e: EventView)
    requires
        clean_wf(s),
        super::event_fits(clean_awaits(s.stage), e),
    ensures
        clean_wf(clean_next(s, e).0),
{
    match s.stage {
        CleanStage::Listing => {
            if let Ok(entries) = list_outcome(e) {
                lemma_advance_keeps_wf(CleanState { entries, candidates: Seq::empty(), ..s }, 0);
            }
        },
        CleanStage::CheckingRemote | CleanStage::CheckingMerged => {
            let grown = CleanState { candidates: s.candidates.push((s.branch, s.entries[s.next].0)), ..s };
            assert(from_worktree(s.entries, s.base, (s.branch, s.entries[s.next].0)));
            assert forall|c: int| 0 <= c < grown.candidates.len() implies from_worktree(
                grown.entries,
                grown.base,
                #[trigger] grown.candidates[c],
            ) by {
                if c < s.candidates.len() {
                    assert(grown.candidates[c] == s.candidates[c]);
                }
            }
            lemma_advance_keeps_wf(grown, s.next + 1);
            lemma_advance_keeps_wf(s, s.next + 1);
        },
        _ => {},
    }
}

/// Where `next_eligible` lands, the branch may go.
proof fn lemma_next_eligible_found(entries: Seq<EntryView>, from: int, base: Seq<char>)
    ensures
        next_eligible(entries, from, base) matches Some(i) ==> from <= i < entries.len()
            && eligible_branch(entries[i], base) is Some,
    decreases entries.len() - from,
{
    if 0 <= from < entries.len() && eligible_branch(entries[from], base) is None {
        lemma_next_eligible_found(entries, from + 1, base);
    }
}

proof fn lemma_advance_keeps_wf(s: CleanState, from: int)
    requires
        0 <= from,
        0 <= s.next,
        all_from_worktrees(s.entries, s.base, s.candidates),
    ensures
        clean_wf(clean_advance(s, from).0),
{
    lemma_next_eligible_found(s.entries, from, s.base);
}

/// Whether `a` has git remove a worktree; the path is its last argument.
pub open spec fn is_removal(a: ActionView) -> bool {
    a matches ActionView::Git { args, .. } && args.len() == 3 && args[0] == "worktree"@ && args[1] == "remove"@
}

/// Whether `a` has git delete a local branch; the branch is its last argument.
pub open spec fn is_deletion(a: ActionView) -> bool {
    a matches ActionView::Git { args, .. } && args.len() == 3 && args[0] == "branch"@
}

/// `clean` removes a worktree only once `--force` or the user allowed it, and only when it is
/// a candidate: a worktree that has a local branch other than the base branch checked out.
pub proof fn law_clean_removes_only_allowed_candidates(s: CleanState, e: EventView)
    requires
        clean_wf(s),
        super::event_fits(clean_awaits(s.stage), e),
    ensures
        ({
            let (t, a) = clean_next(s, e);
            is_removal(a) ==> {
                &&& t.approved
                &&& exists|c: int|
                    0 <= c < t.candidates.len() && t.candidates[c].1 == a->Git_args[2]
                        && from_worktree(t.entries, t.base, #[trigger] t.candidates[c])
            }
        }),
{
    reveal_strlit("worktree");
    reveal_strlit("remove");
    reveal_strlit("list");
    reveal_strlit("branch");
    reveal_strlit("fetch");
    reveal_strlit("rev-parse");
    lemma_clean_keeps_wf(s, e);
    let (t, a) = clean_next(s, e);
    assert("list"@.len() == 4 && "remove"@.len() == 6 && "worktree"@.len() == 8 && "branch"@.len() == 6);
    match s.stage {
        CleanStage::Listing => {
            if let Ok(entries) = list_outcome(e) {
                lemma_next_eligible_found(entries, 0, s.base);
            }
        },
        CleanStage::CheckingRemote | CleanStage::CheckingMerged => {
            lemma_next_eligible_found(s.entries, s.next + 1, s.base);
        },
        _ => {},
    }
    if is_removal(a) {
        assert(t.stage is Removing);
        assert(from_worktree(t.entries, t.base, t.candidates[t.next]));
    }
}

/// A worktree becomes a candidate of `clean` only when git said that the remote `origin` no
/// longer has its branch and, when merges are required, that the branch is merged into the
/// base branch; the merge is asked only after the remote said so.
pub proof fn law_clean_candidate_needs_checks(s: CleanState, e: EventView)
    requires
        clean_wf(s),
        super::event_fits(clean_awaits(s.stage), e),
    ensures
        ({
            let t = clean_next(s, e).0;
            &&& t.candidates.len() > s.candidates.len() ==> {
                ||| s.stage is CheckingRemote && (e matches EventView::GitRan { success: false, .. }) && !s.require_merged
                ||| s.stage is CheckingMerged && (e matches EventView::GitRan { success: true, .. })
            }
            &&& t.stage is CheckingMerged ==> s.stage is CheckingRemote && (e matches EventView::GitRan {
                success: false,
                ..
            }) && s.require_merged
        }),
{
}

/// `clean` deletes a local branch only when the settings say so, right after its worktree
/// was removed, and with `-D` exactly when `--force` was given.
pub proof fn law_clean_deletes_after_removal(s: CleanState, e: EventView)
    requires
        clean_wf(s),
        super::event_fits(clean_awaits(s.stage), e),
    ensures
        ({
            let a = clean_next(s, e).1;
            is_deletion(a) ==> {
                &&& s.stage is Removing
                &&& e matches EventView::GitRan { success: true, .. }
                &&& s.delete_local_branch
                &&& a->Git_args[1] == delete_flag(s.force)
                &&& a->Git_args[2] == s.candidates[s.next].0
            }
        }),
{
    reveal_strlit("worktree");
    reveal_strlit("branch");
    reveal_strlit("fetch");
    reveal_strlit("rev-parse");
    reveal_strlit("merge-base");
    reveal_strlit("show-ref");
    assert("worktree"@.len() == 8 && "branch"@.len() == 6 && "fetch"@.len() == 5);
    assert("rev-parse"@.len() == 9 && "merge-base"@.len() == 10 && "show-ref"@.len() == 8);
}

/// Whether the event `e` ends the work on the candidate `s.next`: its worktree was removed and
/// there is no branch to delete, its branch was deleted, or a failure was reported.
pub open spec fn ends_candidate(s: CleanState, e: EventView) -> bool {
    ||| s.stage is Removing && (e matches EventView::GitRan { success: true, .. }) && !s.delete_local_branch
    ||| s.stage is RemoveWarn
    ||| s.stage is Deleting && (e matches EventView::GitRan { success: true, .. })
    ||| s.stage is DeleteWarn
}

/// Once removal is allowed, `clean` removes every candidate, in order: when the work on one
/// candidate ends, the next action removes the worktree of the following candidate, and the
/// command finishes, successfully, only after the last one. The candidates do not change.
pub proof fn law_clean_removes_every_candidate(s: CleanState, e: EventView)
    requires
        clean_wf(s),
        ends_candidate(s, e),
    ensures
        ({
            let (t, a) = clean_next(s, e);
            if s.next + 1 < s.candidates.len() {
                &&& a == ActionView::Git {
                    dir: Some(s.root),
                    args: seq!["worktree"@, "remove"@, s.candidates[s.next + 1].1],
                    capture: false,
                }
                &&& t.stage is Removing
                &&& t.next == s.next + 1
                &&& t.candidates == s.candidates
                &&& t.approved
            } else {
                a == ActionView::Finish(Ok(()))
            }
        }),
{
}

/// A failed removal or deletion of candidate `s.next` is reported, and the work goes on with
/// the same candidates; a removal that worked, with branches to delete, deletes the branch of
/// that candidate next.
pub proof fn law_clean_failure_goes_on(s: CleanState, e: EventView)
    requires
        clean_wf(s),
        s.stage is Removing || s.stage is Deleting,
        e matches EventView::GitRan { .. },
    ensures
        ({
            let (t, a) = clean_next(s, e);
            &&& t.candidates == s.candidates
            &&& !(s.stage is Removing && e->GitRan_success && !s.delete_local_branch)
                && !(s.stage is Deleting && e->GitRan_success) ==> t.next == s.next
            &&& s.stage is Removing && !e->GitRan_success ==> t.stage is RemoveWarn && a == ActionView::Show(
                MessageView::RemoveFailed(s.candidates[s.next].1),
            )
            &&& s.stage is Deleting && !e->GitRan_success ==> t.stage is DeleteWarn && a == ActionView::Show(
                MessageView::DeleteFailed(s.candidates[s.next].0),
            )
            &&& s.stage is Removing && e->GitRan_success && s.delete_local_branch ==> t.stage is Deleting && a
                == ActionView::Git {
                dir: Some(s.root),
                args: seq!["branch"@, if s.force { "-D"@ } else { "-d"@ }, s.candidates[s.next].0],
                capture: false,
            }
        }),
{
}

/// Removal begins with the first candidate as soon as it is allowed: at once under `--force`
/// once the candidates are shown, and otherwise when the user's trimmed answer is `y`, `Y`,
/// `yes`, `YES` or `Yes`; any other answer ends the command, successfully, with nothing
/// removed.
pub proof fn law_clean_removal_begins_when_allowed(s: CleanState, e: EventView)
    requires
        clean_wf(s),
        super::event_fits(clean_awaits(s.stage), e),
        s.stage is Showing || s.stage is Confirm,
    ensures
        ({
            let (t, a) = clean_next(s, e);
            let first = ActionView::Git {
                dir: Some(s.root),
                args: seq!["worktree"@, "remove"@, s.candidates[0].1],
                capture: false,
            };
            &&& s.stage is Showing && s.force ==> a == first && t.next == 0 && t.approved
            &&& s.stage is Showing && !s.force ==> a == ActionView::Ask && !(t.stage is Removing)
            &&& s.stage is Confirm && (e matches EventView::Answer(line)) ==> {
                let answer = trim(e->Answer_0);
                if answer == "y"@ || answer == "Y"@ || answer == "yes"@ || answer == "YES"@ || answer == "Yes"@ {
                    a == first && t.next == 0 && t.approved
                } else {
                    a == ActionView::Finish(Ok(()))
                }
            }
        }),
{
}

} // verus!
