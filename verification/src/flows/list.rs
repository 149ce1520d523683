//! `list`: shows the worktrees of the repository with their branches.

use vstd::prelude::*;

use super::{
    ask_list, ask_root, entries_of, fail, list_outcome, list_query, root_of, root_outcome, root_query, Action, ActionView,
    Awaiting, Event, EventView, Message, MessageView,
};
use crate::multitree::{branch_label, display_branch, MultiTree};
use crate::worktree::{entries_view, EntryView, WorktreeEntry};

verus! {

/// The steps of `list`.
#[derive(Clone, Copy)]
pub enum ListStage {
    /// Nothing has happened yet.
    Begin,
    /// The root of the repository was asked for.
    Root,
    /// The worktrees were asked for.
    Listing,
    /// The user is being shown the worktrees.
    Showing,
    /// The command is over.
    Over,
}

/// `list` under way.
pub struct ListFlow {
    stage: ListStage,
    root: String,
}

/// `ListFlow` as plain values.
pub struct ListState {
    pub stage: ListStage,
    pub root: Seq<char>,
}

impl ListFlow {
    pub closed spec fn view(&self) -> ListState {
        ListState { stage: self.stage, root: self.root@ }
    }
}

/// The kind of event that `list` waits for at `stage`.
pub open spec fn list_awaits(stage: ListStage) -> Awaiting {
    match stage {
        ListStage::Begin => Awaiting::Start,
        ListStage::Root | ListStage::Listing => Awaiting::Git,
        ListStage::Showing => Awaiting::Shown,
        ListStage::Over => Awaiting::Nothing,
    }
}

/// Each worktree as the list shows it: its branch label and its path.
pub open spec fn listing(entries: Seq<EntryView>) -> Seq<(Seq<char>, Seq<char>)> {
    entries.map_values(|e: EntryView| (branch_label(e), e.0))
}

/// One step of `list`: the state after the event `e` and the action to take.
/// The root is asked for, then the worktrees, which are shown in the order git lists them.
pub open spec fn list_next(s: ListState, e: EventView) -> (ListState, ActionView) {
    match s.stage {
        ListStage::Begin => (ListState { stage: ListStage::Root, ..s }, root_query()),
        ListStage::Root => match root_outcome(e) {
            Err(err) => (ListState { stage: ListStage::Over, ..s }, ActionView::Finish(Err(err))),
            Ok(root) => (ListState { stage: ListStage::Listing, root }, list_query(root)),
        },
        ListStage::Listing => match list_outcome(e) {
            Err(err) => (ListState { stage: ListStage::Over, ..s }, ActionView::Finish(Err(err))),
            Ok(entries) => (
                ListState { stage: ListStage::Showing, ..s },
                ActionView::Show(MessageView::Worktrees(listing(entries))),
            ),
        },
        ListStage::Showing => (ListState { stage: ListStage::Over, ..s }, ActionView::Finish(Ok(()))),
        // No event fits this stage.
        ListStage::Over => (s, ActionView::Finish(Ok(()))),
    }
}

/// Each of `entries` as the list shows it; see `listing`.
pub fn list_items(entries: &Vec<WorktreeEntry>) -> (r: Vec<(String, String)>)
    ensures
        r.deep_view() == listing(entries_view(entries@)),
{
    let ghost ev = entries_view(entries@);
    let mut r: Vec<(String, String)> = Vec::new();
    let mut i: usize = 0;
    while i < entries.len()
        invariant
            ev == entries_view(entries@),
            i <= entries@.len(),
            r@.len() == i,
            r.deep_view() == listing(ev.take(i as int)),
        decreases entries@.len() - i,
    {
        let e = &entries[i];
        assert(ev[i as int] == e.view());
        let label = display_branch(e);
        let ghost before = r.deep_view();
        let ghost old_r = r@;
        r.push((label, e.path.clone()));
        let ghost target = listing(ev.take(i + 1));
        assert forall|k: int| 0 <= k < r@.len() implies #[trigger] r.deep_view()[k] == target[k] by {
            if k < i {
                assert(r@[k] == old_r[k]);
                assert(before[k] == listing(ev.take(i as int))[k]);
            }
        }
        assert(r.deep_view() =~= target);
        i = i + 1;
    }
    assert(ev.take(entries@.len() as int) == ev);
    r
}

impl MultiTree {
    /// Begins `list`.
    pub fn list_worktrees(&self) -> (r: ListFlow)
        ensures
            r.view() == (ListState { stage: ListStage::Begin, root: Seq::empty() }),
    {
        ListFlow { stage: ListStage::Begin, root: String::new() }
    }
}

impl ListFlow {
    /// The kind of event that the command waits for.
    pub fn awaiting(&self) -> (r: Awaiting)
        ensures
            r == list_awaits(self.view().stage),
    {
        match self.stage {
            ListStage::Begin => Awaiting::Start,
            ListStage::Root | ListStage::Listing => Awaiting::Git,
            ListStage::Showing => Awaiting::Shown,
            ListStage::Over => Awaiting::Nothing,
        }
    }

    /// Takes the event `e` and gives the next action; see `list_next`.
    pub fn step(&mut self, e: Event) -> (a: Action)
        requires
            super::event_fits(list_awaits(old(self).view().stage), e.view()),
        ensures
            (final(self).view(), a.view()) == list_next(old(self).view(), e.view()),
    {
        match self.stage {
            ListStage::Begin => {
                self.stage = ListStage::Root;
                ask_root()
            },
            ListStage::Root => match root_of(e) {
                Ok(root) => {
                    self.stage = ListStage::Listing;
                    self.root = root;
                    ask_list(&self.root)
                },
                Err(err) => {
                    self.stage = ListStage::Over;
                    fail(err)
                },
            },
            ListStage::Listing => match entries_of(e) {
                Err(err) => {
                    self.stage = ListStage::Over;
                    fail(err)
                },
                Ok(entries) => {
                    self.stage = ListStage::Showing;
                    Action::Show(Message::Worktrees(list_items(&entries)))
                },
            },
            ListStage::Showing => {
                self.stage = ListStage::Over;
                Action::Finish(Ok(()))
            },
            ListStage::Over => {
                proof {
                    assert(false);
                }
                Action::Ask
            },
        }
    }
}

} // verus!
