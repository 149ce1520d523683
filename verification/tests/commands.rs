use multitree::config::config::{Config, Missing};
use multitree::config::config_file::{default_base_branch, CleanConfig, ConfigFile, PathConfig, UiConfig};
use multitree::flows::{fits, Action, Event, Message};
use multitree::multitree::{MultiTree, MultiTreeError};

fn manager_with(clean: CleanConfig, ui: UiConfig) -> MultiTree {
    let file = ConfigFile::new(default_base_branch(), PathConfig::default(), clean, ui);
    let config = Config::<Missing>::default().with_saved_file("/cfg/Config.toml".to_string(), file.mark_saved());
    MultiTree::new(config)
}

fn manager() -> MultiTree {
    manager_with(CleanConfig::default(), UiConfig::default())
}

fn ran(success: bool, stdout: &str) -> Event {
    Event::GitRan { success, stdout: stdout.into(), stderr: String::new(), status: "exit status: 0".into() }
}

fn failed(stderr: &str, status: &str) -> Event {
    Event::GitRan { success: false, stdout: String::new(), stderr: stderr.into(), status: status.into() }
}

fn git(a: &Action) -> (Option<String>, Vec<String>, bool) {
    match a {
        Action::Git { dir, args, capture } => (dir.clone(), args.clone(), *capture),
        _ => panic!("expected a git command"),
    }
}

fn strs(v: &[&str]) -> Vec<String> {
    v.iter().map(|s| s.to_string()).collect()
}

const LISTING: &str = "worktree /home/u/repo\nbranch refs/heads/main\n\nworktree /home/u/feature-x\nbranch refs/heads/feature-x\n\nworktree /home/u/orphan-x\nbranch refs/heads/orphan-x\n\nworktree /home/u/loose\ndetached\n";

#[test]
fn add_creates_worktree_and_branch() {
    let mut f = manager().add_worktree("feature-x".into(), None);
    let a = f.step(Event::Start);
    assert_eq!(git(&a), (None, strs(&["rev-parse", "--show-toplevel"]), true));
    let a = f.step(ran(true, "/home/u/repo\n"));
    assert_eq!(
        git(&a),
        (Some("/home/u/repo".into()), strs(&["show-ref", "--verify", "--quiet", "refs/heads/feature-x"]), false)
    );
    let a = f.step(ran(false, ""));
    assert_eq!(
        git(&a),
        (
            Some("/home/u/repo".into()),
            strs(&["worktree", "add", "-b", "feature-x", "/home/u/feature-x", "main"]),
            true
        )
    );
    let a = f.step(ran(true, ""));
    assert!(matches!(a, Action::Show(Message::Added)));
    assert!(matches!(f.step(Event::Shown), Action::Finish(Ok(()))));
}

#[test]
fn add_checks_out_existing_branch_at_given_path() {
    let mut f = manager().add_worktree("feature-x".into(), Some("/tmp/trees".into()));
    f.step(Event::Start);
    f.step(ran(true, "/home/u/repo\n"));
    let a = f.step(ran(true, ""));
    assert_eq!(git(&a).1, strs(&["worktree", "add", "/tmp/trees/feature-x", "feature-x"]));
    match f.step(failed("fatal: already exists", "exit status: 128")) {
        Action::Finish(Err(MultiTreeError::GitCommandFailed(m))) => assert_eq!(m, "fatal: already exists"),
        _ => panic!("expected the stderr of git"),
    }
}

#[test]
fn commands_outside_a_repository_fail() {
    let mut f = manager().add_worktree("x".into(), None);
    f.step(Event::Start);
    assert!(matches!(f.step(failed("", "exit status: 128")), Action::Finish(Err(MultiTreeError::NotGitRepo))));
    let mut f = manager().list_worktrees();
    f.step(Event::Start);
    match f.step(Event::GitNotRun("no git".into())) {
        Action::Finish(Err(MultiTreeError::GitCommandFailed(m))) => assert_eq!(m, "no git"),
        _ => panic!("expected GitCommandFailed"),
    }
}

#[test]
fn list_prints_worktrees() {
    let mut f = manager().list_worktrees();
    f.step(Event::Start);
    let a = f.step(ran(true, "/home/u/repo\n"));
    assert_eq!(git(&a), (Some("/home/u/repo".into()), strs(&["worktree", "list", "--porcelain"]), true));
    match f.step(ran(true, LISTING)) {
        Action::Show(Message::Worktrees(items)) => {
            let items: Vec<(&str, &str)> = items.iter().map(|(b, p)| (b.as_str(), p.as_str())).collect();
            assert_eq!(
                items,
                vec![
                    ("main", "/home/u/repo"),
                    ("feature-x", "/home/u/feature-x"),
                    ("orphan-x", "/home/u/orphan-x"),
                    ("(detached)", "/home/u/loose"),
                ]
            );
        }
        _ => panic!("expected the list"),
    }
    assert!(matches!(f.step(Event::Shown), Action::Finish(Ok(()))));
}

fn remove_until_announce(mt: &MultiTree) -> multitree::flows::remove::RemoveFlow {
    let mut f = mt.remove_worktree("feature-x".into());
    f.step(Event::Start);
    f.step(ran(true, "/home/u/repo\n"));
    match f.step(ran(true, LISTING)) {
        Action::Show(Message::Removing { name, path }) => {
            assert_eq!(name, "feature-x");
            assert_eq!(path, "/home/u/feature-x");
        }
        _ => panic!("expected the announcement"),
    }
    f
}

#[test]
fn remove_deletes_worktree_directory_with_confirmation() {
    let mt = manager();
    let mut f = remove_until_announce(&mt);
    assert!(matches!(f.step(Event::Shown), Action::Ask));
    let a = f.step(Event::Answer("y\n".into()));
    assert_eq!(git(&a), (Some("/home/u/repo".into()), strs(&["worktree", "remove", "/home/u/feature-x"]), false));
    assert!(matches!(f.step(ran(true, "")), Action::Finish(Ok(()))));
}

#[test]
fn remove_cancel_does_not_delete() {
    let mt = manager();
    let mut f = remove_until_announce(&mt);
    assert!(matches!(f.step(Event::Shown), Action::Ask));
    assert!(matches!(f.step(Event::Answer("n\n".into())), Action::Finish(Ok(()))));
}

#[test]
fn remove_without_confirmation_setting_does_not_ask() {
    let mt = manager_with(CleanConfig::default(), UiConfig { preferred_shell: String::new(), confirm_before_remove: false });
    let mut f = remove_until_announce(&mt);
    let a = f.step(Event::Shown);
    assert_eq!(git(&a).1, strs(&["worktree", "remove", "/home/u/feature-x"]));
    match f.step(failed("", "exit status: 1")) {
        Action::Finish(Err(MultiTreeError::GitCommandFailed(m))) => {
            assert_eq!(m, "git worktree remove failed with status: exit status: 1")
        }
        _ => panic!("expected the failure"),
    }
}

#[test]
fn remove_unknown_branch_and_unreadable_answer() {
    let mut f = manager().remove_worktree("nope".into());
    f.step(Event::Start);
    f.step(ran(true, "/home/u/repo\n"));
    assert!(matches!(f.step(ran(true, LISTING)), Action::Finish(Err(MultiTreeError::WorktreeNotFound(ref n))) if n == "nope"));
    let mt = manager();
    let mut f = remove_until_announce(&mt);
    f.step(Event::Shown);
    assert!(matches!(f.step(Event::AnswerNotRead("closed".into())), Action::Finish(Err(MultiTreeError::ReadUserInput(_)))));
}

#[test]
fn track_starts_shell_in_worktree() {
    let mut f = manager().track_worktree("feature-x".into(), Some("/bin/zsh".into()), false);
    assert!(fits(&f.awaiting(), &Event::Start));
    f.step(Event::Start);
    f.step(ran(true, "/home/u/repo\n"));
    assert!(matches!(f.step(ran(true, LISTING)), Action::Show(Message::Tracking { .. })));
    match f.step(Event::Shown) {
        Action::Shell { shell, path } => {
            assert_eq!(shell, "/bin/zsh");
            assert_eq!(path, "/home/u/feature-x");
        }
        _ => panic!("expected a shell"),
    }
    assert!(matches!(
        f.step(Event::ShellExited { success: false, status: "exit status: 2".into() }),
        Action::Show(Message::ShellFailed(ref s)) if s == "exit status: 2"
    ));
    assert!(matches!(f.step(Event::Shown), Action::Finish(Ok(()))));
}

#[test]
fn track_reports_shell_that_cannot_start() {
    let mut f = manager().track_worktree("feature-x".into(), None, false);
    f.step(Event::Start);
    f.step(ran(true, "/home/u/repo\n"));
    f.step(ran(true, LISTING));
    assert!(matches!(f.step(Event::Shown), Action::Shell { ref shell, .. } if shell == "/bin/bash"));
    match f.step(Event::ShellNotStarted("not found".into())) {
        Action::Finish(Err(MultiTreeError::SpawnShell { shell, source })) => {
            assert_eq!(shell, "/bin/bash");
            assert_eq!(source, "not found");
        }
        _ => panic!("expected SpawnShell"),
    }
}

#[test]
fn clean_removes_local_orphan_worktree_when_remote_branch_missing() {
    let mut f = manager().clean_worktrees(true);
    f.step(Event::Start);
    let a = f.step(ran(true, "/tmp/t/repo\n"));
    assert_eq!(git(&a), (Some("/tmp/t/repo".into()), strs(&["fetch", "--prune"]), false));
    let a = f.step(ran(true, ""));
    assert_eq!(git(&a).1, strs(&["worktree", "list", "--porcelain"]));
    // main is the base branch and stays; orphan-x is checked.
    let a = f.step(ran(
        true,
        "worktree /tmp/t/repo\nHEAD 1\nbranch refs/heads/main\n\nworktree /tmp/t/orphan-x\nHEAD 1\nbranch refs/heads/orphan-x\n\n",
    ));
    assert_eq!(git(&a).1, strs(&["show-ref", "--verify", "--quiet", "refs/remotes/origin/orphan-x"]));
    // No remote branch: is it merged into main?
    let a = f.step(ran(false, ""));
    assert_eq!(git(&a).1, strs(&["merge-base", "--is-ancestor", "orphan-x", "main"]));
    match f.step(ran(true, "")) {
        Action::Show(Message::Candidates(c)) => {
            assert_eq!(c, vec![("orphan-x".to_string(), "/tmp/t/orphan-x".to_string())]);
        }
        _ => panic!("expected the candidates"),
    }
    // --force: no question.
    let a = f.step(Event::Shown);
    assert_eq!(git(&a).1, strs(&["worktree", "remove", "/tmp/t/orphan-x"]));
    assert!(matches!(f.step(ran(true, "")), Action::Finish(Ok(()))));
}

#[test]
fn clean_keeps_worktrees_whose_remote_branch_exists() {
    let mut f = manager().clean_worktrees(true);
    f.step(Event::Start);
    f.step(ran(true, "/home/u/repo\n"));
    f.step(ran(true, ""));
    let a = f.step(ran(true, LISTING));
    assert_eq!(git(&a).1, strs(&["show-ref", "--verify", "--quiet", "refs/remotes/origin/feature-x"]));
    // The remote still has feature-x: it stays, and orphan-x is checked next.
    let a = f.step(ran(true, ""));
    assert_eq!(git(&a).1, strs(&["show-ref", "--verify", "--quiet", "refs/remotes/origin/orphan-x"]));
    let a = f.step(ran(true, ""));
    assert!(matches!(a, Action::Show(Message::NothingToClean)));
}

#[test]
fn clean_skips_unmerged_and_reports_nothing() {
    let mut f = manager().clean_worktrees(false);
    f.step(Event::Start);
    f.step(ran(true, "/home/u/repo\n"));
    f.step(ran(true, ""));
    f.step(ran(true, "worktree /home/u/repo\nbranch refs/heads/main\n\nworktree /w\nbranch refs/heads/w\n"));
    let a = f.step(ran(false, ""));
    assert_eq!(git(&a).1, strs(&["merge-base", "--is-ancestor", "w", "main"]));
    assert!(matches!(f.step(ran(false, "")), Action::Show(Message::NothingToClean)));
    assert!(matches!(f.step(Event::Shown), Action::Finish(Ok(()))));
}

#[test]
fn clean_asks_and_deletes_branches_when_configured() {
    let clean = CleanConfig { auto_fetch: false, require_merged: false, delete_local_branch: true };
    let mut f = manager_with(clean, UiConfig::default()).clean_worktrees(false);
    f.step(Event::Start);
    let a = f.step(ran(true, "/home/u/repo\n"));
    assert_eq!(git(&a).1, strs(&["worktree", "list", "--porcelain"]));
    f.step(ran(true, "worktree /a\nbranch refs/heads/a\n\nworktree /b\nbranch refs/heads/b\n"));
    f.step(ran(false, ""));
    assert!(matches!(f.step(ran(false, "")), Action::Show(Message::Candidates(ref c)) if c.len() == 2));
    assert!(matches!(f.step(Event::Shown), Action::Ask));
    let a = f.step(Event::Answer("yes\n".into()));
    assert_eq!(git(&a).1, strs(&["worktree", "remove", "/a"]));
    let a = f.step(ran(true, ""));
    assert_eq!(git(&a).1, strs(&["branch", "-d", "a"]));
    assert!(matches!(f.step(ran(false, "")), Action::Show(Message::DeleteFailed(ref b)) if b == "a"));
    let a = f.step(Event::Shown);
    assert_eq!(git(&a).1, strs(&["worktree", "remove", "/b"]));
    assert!(matches!(f.step(ran(false, "")), Action::Show(Message::RemoveFailed(ref p)) if p == "/b"));
    assert!(matches!(f.step(Event::Shown), Action::Finish(Ok(()))));
}

#[test]
fn clean_declined_removes_nothing() {
    let clean = CleanConfig { auto_fetch: false, require_merged: false, delete_local_branch: false };
    let mut f = manager_with(clean, UiConfig::default()).clean_worktrees(false);
    f.step(Event::Start);
    f.step(ran(true, "/r\n"));
    f.step(ran(true, "worktree /a\nbranch refs/heads/a\n"));
    f.step(ran(false, ""));
    f.step(Event::Shown);
    assert!(matches!(f.step(Event::Answer("no".into())), Action::Finish(Ok(()))));
}

#[test]
fn clean_force_deletes_with_capital_d_and_fetch_failure_ends() {
    let clean = CleanConfig { auto_fetch: false, require_merged: false, delete_local_branch: true };
    let mut f = manager_with(clean, UiConfig::default()).clean_worktrees(true);
    f.step(Event::Start);
    f.step(ran(true, "/r\n"));
    f.step(ran(true, "worktree /a\nbranch refs/heads/a\n"));
    f.step(ran(false, ""));
    f.step(Event::Shown);
    let a = f.step(ran(true, ""));
    assert_eq!(git(&a).1, strs(&["branch", "-D", "a"]));
    assert!(matches!(f.step(ran(true, "")), Action::Finish(Ok(()))));

    let mut f = manager().clean_worktrees(false);
    f.step(Event::Start);
    f.step(ran(true, "/r\n"));
    match f.step(failed("", "exit status: 1")) {
        Action::Finish(Err(MultiTreeError::GitCommandFailed(m))) => {
            assert_eq!(m, "git fetch --prune failed with status: exit status: 1")
        }
        _ => panic!("expected the fetch failure"),
    }
}
